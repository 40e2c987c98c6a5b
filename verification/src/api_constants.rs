//! The paths of the asset API below the address of an instance.

use vstd::prelude::*;

verus! {

/// The asset list.
pub const ASSET_API_PREFIX: &'static str = "/api/asset/assets";

/// The custom properties of an asset; the asset's identifier follows.
pub const ASSET_CUSTOM_PROPERTIES: &'static str = "/api/asset/customAssetProperties";

/// The sensors of an asset; the asset's identifier follows.
pub const ASSET_SENSORS: &'static str = "/api/asset/sensors";

/// The daily summaries of numeric sensors.
pub const ASSET_NUMERIC_SENSOR_DAILY_SUMMARY: &'static str = "/api/asset/sensorsDailySummaries/numeric";

/// The address of a resource: the address of the instance, then the path.
pub open spec fn resource_url(instance_url: Seq<char>, path: Seq<char>) -> Seq<char> {
    instance_url + path
}

/// The address of a resource of one asset: the address of the instance, the
/// path, a slash, and the asset's identifier.
pub open spec fn asset_resource_url(
    instance_url: Seq<char>,
    path: Seq<char>,
    asset_id: Seq<char>,
) -> Seq<char> {
    instance_url + path + "/"@ + asset_id
}

/// Builds the address of a resource.
pub fn format_resource_url(instance_url: &str, path: &str) -> (url: String)
    ensures
        url@ == resource_url(instance_url@, path@),
{
    let mut url = instance_url.to_owned();
    url.append(path);
    url
}

/// Builds the address of a resource of one asset.
pub fn format_asset_resource_url(instance_url: &str, path: &str, asset_id: &str) -> (url: String)
    ensures
        url@ == asset_resource_url(instance_url@, path@, asset_id@),
{
    let mut url = instance_url.to_owned();
    url.append(path);
    url.append("/");
    url.append(asset_id);
    url
}

} // verus!

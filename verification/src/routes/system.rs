//! Version and build information.

use vstd::prelude::*;

use crate::json::{Json, JsonView};
use crate::routes::{Reply, RpcCall};

verus! {

/// GET /v1/version: signal-cli's own version.
pub fn version() -> (call: RpcCall)
    ensures
        call.method@ == "version"@,
        call.reply == Reply::Success,
        call.params@ == JsonView::Object(Map::empty()),
{
    let params = Json::empty_object();
    RpcCall::new("version", params, Reply::Success)
}

/// The body of GET /v1/about: this service's own version, and the processor architecture
/// and operating system it was built for.
pub fn about(version: &str, target: &str, os: &str) -> (info: Json)
    ensures
        info@ == JsonView::Object(
            map![
                "versions"@ => JsonView::Object(map!["signal-cli-api"@ => JsonView::Str(version@)]),
                "build"@ => JsonView::Object(
                    map!["target"@ => JsonView::Str(target@), "os"@ => JsonView::Str(os@)],
                ),
            ],
        ),
{
    let mut versions = Json::empty_object();
    versions.set("signal-cli-api", Json::text(version));
    let mut build = Json::empty_object();
    build.set("target", Json::text(target));
    build.set("os", Json::text(os));
    let mut info = Json::empty_object();
    info.set("versions", versions);
    info.set("build", build);
    info
}

} // verus!

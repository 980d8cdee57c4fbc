//! Prism Launcher's metadata server.
use vstd::prelude::*;
use vstd::string::StringExecFns;

verus! {

pub const META: &'static str = "https://meta.prismlauncher.org/v1";

pub const MINECRAFT_PACKAGEJSON: &'static str = "/net.minecraft/package.json";

/// The metadata of the Minecraft package.
#[derive(Debug)]
pub struct MinecraftPackageJson {
    pub format_version: u8,
    pub name: String,
    pub recommended: Vec<String>,
    pub uid: String,
}

/// Where the Minecraft package's metadata is read.
pub fn package_json_url() -> (r: String)
    ensures
        r@ == META@ + MINECRAFT_PACKAGEJSON@,
{
    let mut r = String::from_str(META);
    r.append(MINECRAFT_PACKAGEJSON);
    r
}

/// The latest Minecraft version: the first recommended one.
pub fn latest_version(data: &MinecraftPackageJson) -> (r: Result<String, String>)
    ensures
        data.recommended@.len() > 0 ==> (r matches Ok(v) && v@ == data.recommended@[0]@),
        data.recommended@.len() == 0 ==> (r matches Err(e) && e@
            == "Couldn't find latest version of Minecraft!"@),
{
    if data.recommended.len() == 0 {
        Err(String::from_str("Couldn't find latest version of Minecraft!"))
    } else {
        Ok(data.recommended[0].clone())
    }
}

} // verus!

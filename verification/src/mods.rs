//! The optional gameplay mods that are installed with the game.

use vstd::prelude::*;
use vstd::string::*;
use crate::text::texts;

verus! {

pub const FABRIC_API: &'static str =
    "https://cdn.modrinth.com/data/P7dR8mSH/versions/hfsU4hXq/fabric-api-0.76.0%2B1.19.2.jar";

pub const SIMPLE_VOICE_CHAT: &'static str =
    "https://cdn.modrinth.com/data/9eGKb6K1/versions/K95RbSbU/voicechat-fabric-1.19.2-2.4.16.jar";

pub const PHOSPHOR: &'static str =
    "https://cdn.modrinth.com/data/hEOCdOgW/versions/mc1.19.x-0.8.1/phosphor-fabric-mc1.19.x-0.8.1.jar";

pub const LITHIUM: &'static str =
    "https://cdn.modrinth.com/data/gvQqBUqZ/versions/m6sVgAi6/lithium-fabric-mc1.19.2-0.11.1.jar";

pub const IRIS: &'static str =
    "https://cdn.modrinth.com/data/YL57xq9U/versions/9YEwbzW6/iris-mc1.19.2-1.6.4.jar";

pub const SODIUM: &'static str =
    "https://cdn.modrinth.com/data/AANobbMI/versions/rAfhHfow/sodium-fabric-mc1.19.2-0.4.4%2Bbuild.18.jar";

pub const CREATE: &'static str =
    "https://cdn.modrinth.com/data/Xbc0uyRg/versions/wKEEi1qX/create-fabric-0.5.1-b-build.1089%2Bmc1.19.2.jar";

pub const AE2: &'static str =
    "https://cdn.modrinth.com/data/XxWD5pD3/versions/lePuKDdy/appliedenergistics2-fabric-12.9.6.jar";

pub const XAEROS_MINIMAP: &'static str =
    "https://cdn.modrinth.com/data/1bokaNcj/versions/LKcX5Que/Xaeros_Minimap_23.6.0_Fabric_1.19.1.jar";

pub const XAEROS_WORLD_MAP: &'static str =
    "https://cdn.modrinth.com/data/NcUtCpym/versions/st6Yi8FJ/XaerosWorldMap_1.31.0_Fabric_1.19.1.jar";

pub const INDIUM: &'static str =
    "https://cdn.modrinth.com/data/Orvt0mRa/versions/yTfou6df/indium-1.0.9%2Bmc1.19.2.jar";

pub const JEI: &'static str =
    "https://cdn.modrinth.com/data/u6dRKJwZ/versions/8y6r09NZ/jei-1.19.2-fabric-11.6.0.1016.jar";

pub const LAZY_DFU: &'static str = "https://cdn.modrinth.com/data/hvFnDODi/versions/0.1.3/lazydfu-0.1.3.jar";

pub const FERRITE_CORE: &'static str =
    "https://cdn.modrinth.com/data/uXXizFIs/versions/kwjHqfz7/ferritecore-5.0.3-fabric.jar";

pub const CLUMPS: &'static str =
    "https://cdn.modrinth.com/data/Wnxd13zP/versions/3GURrv52/Clumps-forge-1.19.2-9.0.0%2B14.jar";

/// The URLs of the mods, in the order in which they are queued.
pub open spec fn mod_urls() -> Seq<Seq<char>> {
    seq![
        FABRIC_API@,
        SIMPLE_VOICE_CHAT@,
        PHOSPHOR@,
        LITHIUM@,
        IRIS@,
        SODIUM@,
        CREATE@,
        AE2@,
        XAEROS_WORLD_MAP@,
        XAEROS_MINIMAP@,
        INDIUM@,
        JEI@,
        LAZY_DFU@,
        FERRITE_CORE@,
        CLUMPS@,
    ]
}

/// The URLs of the mods.
pub fn get_mod_list() -> (mods: Vec<String>)
    ensures
        texts(mods@) == mod_urls(),
{
    let mut mods: Vec<String> = Vec::new();
    mods.push(String::from_str(FABRIC_API));
    mods.push(String::from_str(SIMPLE_VOICE_CHAT));
    mods.push(String::from_str(PHOSPHOR));
    mods.push(String::from_str(LITHIUM));
    mods.push(String::from_str(IRIS));
    mods.push(String::from_str(SODIUM));
    mods.push(String::from_str(CREATE));
    mods.push(String::from_str(AE2));
    mods.push(String::from_str(XAEROS_WORLD_MAP));
    mods.push(String::from_str(XAEROS_MINIMAP));
    mods.push(String::from_str(INDIUM));
    mods.push(String::from_str(JEI));
    mods.push(String::from_str(LAZY_DFU));
    mods.push(String::from_str(FERRITE_CORE));
    mods.push(String::from_str(CLUMPS));
    mods
}

} // verus!

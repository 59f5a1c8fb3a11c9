//! The arguments with which the game's runtime is started.

use vstd::prelude::*;
use vstd::string::*;
use crate::authenticator::Authenticator;
use crate::installer::Installer;
use crate::paths::DirPath;
use crate::text::{same_text, texts};

verus! {

/// Why a launch cannot be prepared.
#[derive(Clone, Copy, Debug, PartialEq, Eq, Structural)]
pub enum LaunchError {
    /// The operating system is none of `linux`, `macos` and `windows`.
    UnsupportedOs,
}

/// The name of the natives directory of an operating system.
pub open spec fn natives_name(os: Seq<char>) -> Option<Seq<char>> {
    if os == "linux"@ {
        Some("linux"@)
    } else if os == "macos"@ {
        Some("osx"@)
    } else if os == "windows"@ {
        Some("windows"@)
    } else {
        None
    }
}

/// What separates the entries of a class path on an operating system.
pub open spec fn separator(os: Seq<char>) -> Option<Seq<char>> {
    if os == "linux"@ || os == "macos"@ {
        Some(":"@)
    } else if os == "windows"@ {
        Some(";"@)
    } else {
        None
    }
}

/// Every entry followed by the separator, in order.
pub open spec fn class_path(entries: Seq<Seq<char>>, sep: Seq<char>) -> Seq<char>
    decreases entries.len(),
{
    if entries.len() == 0 {
        Seq::empty()
    } else {
        class_path(entries.drop_last(), sep) + entries.last() + sep
    }
}

/// The directories that a launch reads, and the files found in three of
/// them, all as the platform writes them.
pub struct LaunchPaths {
    /// The game directory.
    pub game_dir: String,
    /// The assets directory.
    pub assets_dir: String,
    /// The natives directory of this system.
    pub natives_dir: String,
    /// What lies under the client directory, the natives directory and the
    /// libraries directory, in this order.
    pub entries: Vec<String>,
}

/// The directories that a launch reads.
pub struct LaunchDirs {
    pub assets: DirPath,
    pub natives: DirPath,
    pub client: DirPath,
    pub libraries: DirPath,
}

/// The arguments of the game's runtime.
pub open spec fn launch_args(
    natives_dir: Seq<char>,
    class_path: Seq<char>,
    username: Seq<char>,
    game_dir: Seq<char>,
    assets_dir: Seq<char>,
    uuid: Seq<char>,
    access_token: Seq<char>,
) -> Seq<Seq<char>> {
    seq![
        "-Djava.library.path="@ + natives_dir,
        "-Dminecraft.launcher.brand=PBLM"@,
        "-Dminecraft.launcher.version=0.1"@,
        "-cp"@,
        class_path,
        "net.fabricmc.loader.impl.launch.knot.KnotClient"@,
        "-DFabricMcEmu=net.minecraft.client.main.Main"@,
        "-Xmx6G"@,
        "-XX:+UnlockExperimentalVMOptions"@,
        "-XX:+UseG1GC"@,
        "-XX:G1NewSizePercent=20"@,
        "-XX:G1ReservePercent=20"@,
        "-XX:MaxGCPauseMillis=50"@,
        "-XX:G1HeapRegionSize=32M"@,
        "--username"@,
        username,
        "--version"@,
        "1.19.2"@,
        "--gameDir"@,
        game_dir,
        "--assetsDir"@,
        assets_dir,
        "--assetIndex"@,
        "1.19"@,
        "--uuid"@,
        uuid,
        "--accessToken"@,
        access_token,
        "--userType"@,
        "msa"@,
        "--versionType"@,
        "release"@,
    ]
}

/// A prepared launch.
pub struct Launcher {
    pub auth: Authenticator,
    pub installer: Installer,
    pub args: Vec<String>,
}

/// The name of the natives directory of `os`.
pub fn natives_name_of(os: &str) -> (r: Option<&'static str>)
    ensures
        match r {
            Some(name) => natives_name(os@) == Some(name@),
            None => natives_name(os@) is None,
        },
{
    if same_text(os, "linux") {
        Some("linux")
    } else if same_text(os, "macos") {
        Some("osx")
    } else if same_text(os, "windows") {
        Some("windows")
    } else {
        None
    }
}

/// What separates the entries of a class path on `os`.
pub fn separator_of(os: &str) -> (r: Option<&'static str>)
    ensures
        match r {
            Some(sep) => separator(os@) == Some(sep@),
            None => separator(os@) is None,
        },
{
    if same_text(os, "linux") || same_text(os, "macos") {
        Some(":")
    } else if same_text(os, "windows") {
        Some(";")
    } else {
        None
    }
}

/// The class path of `entries`: every entry followed by `sep`.
pub fn build_class_path(entries: &Vec<String>, sep: &str) -> (r: String)
    ensures
        r@ == class_path(texts(entries@), sep@),
{
    let mut path = String::new();
    let mut i: usize = 0;
    while i < entries.len()
        invariant
            0 <= i <= entries@.len(),
            path@ == class_path(texts(entries@).take(i as int), sep@),
        decreases entries@.len() - i,
    {
        proof {
            let upto = texts(entries@).take(i + 1);
            assert(upto.drop_last() =~= texts(entries@).take(i as int));
        }
        path.append(entries[i].as_str());
        path.append(sep);
        i = i + 1;
    }
    assert(texts(entries@).take(i as int) =~= texts(entries@));
    path
}

impl Launcher {
    /// The directories that the launch of `installer`'s game reads.
    pub fn directories(installer: &Installer) -> (r: Result<LaunchDirs, LaunchError>)
        ensures
            match r {
                Ok(dirs) => {
                    &&& natives_name(installer.sys.os@) is Some
                    &&& dirs.assets@ == installer.sys.game_dir@.push("assets"@)
                    &&& dirs.natives@ == installer.sys.game_dir@.push("natives"@).push(
                        natives_name(installer.sys.os@)->0,
                    )
                    &&& dirs.client@ == installer.sys.game_dir@.push("client"@)
                    &&& dirs.libraries@ == installer.sys.game_dir@.push("libraries"@)
                },
                Err(e) => e == LaunchError::UnsupportedOs && natives_name(installer.sys.os@)
                    is None,
            },
    {
        match natives_name_of(installer.sys.os.as_str()) {
            Some(name) => Ok(
                LaunchDirs {
                    assets: installer.sys.game_dir.child("assets"),
                    natives: installer.sys.game_dir.child("natives").join(name),
                    client: installer.sys.game_dir.child("client"),
                    libraries: installer.sys.game_dir.child("libraries"),
                },
            ),
            None => Err(LaunchError::UnsupportedOs),
        }
    }

    /// Prepares the launch: the arguments of the runtime, from the player's
    /// profile and from what was found on disk.
    pub fn new(auth: Authenticator, installer: Installer, paths: &LaunchPaths) -> (r: Result<
        Self,
        LaunchError,
    >)
        ensures
            match r {
                Ok(launcher) => {
                    &&& separator(installer.sys.os@) is Some
                    &&& launcher.auth == auth
                    &&& launcher.installer == installer
                    &&& texts(launcher.args@) == launch_args(
                        paths.natives_dir@,
                        class_path(texts(paths.entries@), separator(installer.sys.os@)->0),
                        auth.profile.username@,
                        paths.game_dir@,
                        paths.assets_dir@,
                        auth.profile.uuid@,
                        auth.profile.access_token@,
                    )
                },
                Err(e) => e == LaunchError::UnsupportedOs && separator(installer.sys.os@) is None,
            },
    {
        let sep = match separator_of(installer.sys.os.as_str()) {
            Some(sep) => sep,
            None => {
                return Err(LaunchError::UnsupportedOs);
            },
        };
        let class_path = build_class_path(&paths.entries, sep);
        let mut args: Vec<String> = Vec::new();
        args.push(String::from_str("-Djava.library.path=").concat(paths.natives_dir.as_str()));
        args.push(String::from_str("-Dminecraft.launcher.brand=PBLM"));
        args.push(String::from_str("-Dminecraft.launcher.version=0.1"));
        args.push(String::from_str("-cp"));
        args.push(class_path);
        args.push(String::from_str("net.fabricmc.loader.impl.launch.knot.KnotClient"));
        args.push(String::from_str("-DFabricMcEmu=net.minecraft.client.main.Main"));
        args.push(String::from_str("-Xmx6G"));
        args.push(String::from_str("-XX:+UnlockExperimentalVMOptions"));
        args.push(String::from_str("-XX:+UseG1GC"));
        args.push(String::from_str("-XX:G1NewSizePercent=20"));
        args.push(String::from_str("-XX:G1ReservePercent=20"));
        args.push(String::from_str("-XX:MaxGCPauseMillis=50"));
        args.push(String::from_str("-XX:G1HeapRegionSize=32M"));
        args.push(String::from_str("--username"));
        args.push(auth.profile.username.clone());
        args.push(String::from_str("--version"));
        args.push(String::from_str("1.19.2"));
        args.push(String::from_str("--gameDir"));
        args.push(paths.game_dir.clone());
        args.push(String::from_str("--assetsDir"));
        args.push(paths.assets_dir.clone());
        args.push(String::from_str("--assetIndex"));
        args.push(String::from_str("1.19"));
        args.push(String::from_str("--uuid"));
        args.push(auth.profile.uuid.clone());
        args.push(String::from_str("--accessToken"));
        args.push(auth.profile.access_token.clone());
        args.push(String::from_str("--userType"));
        args.push(String::from_str("msa"));
        args.push(String::from_str("--versionType"));
        args.push(String::from_str("release"));
        assert(texts(args@) =~= launch_args(
            paths.natives_dir@,
            class_path@,
            auth.profile.username@,
            paths.game_dir@,
            paths.assets_dir@,
            auth.profile.uuid@,
            auth.profile.access_token@,
        ));
        Ok(Launcher { auth, installer, args })
    }
}

} // verus!

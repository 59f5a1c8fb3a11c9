use pblm_launcher::fabric::get_fabric_libs;
use pblm_launcher::installer::version_file::{
    Artifact, Asset, AssetIndex, Downloads, Library, LibraryDownloads, Os, Rule, VersionFile,
};
use pblm_launcher::installer::version_manifest::{Latest, VersionManifest, Versions};
use pblm_launcher::installer::{
    asset_download, library_directory, InstallError, Installer, ASSET_HOST, VERSION_MANIFEST,
};
use pblm_launcher::locate::target_name;
use pblm_launcher::mods::get_mod_list;
use pblm_launcher::paths::DirPath;

fn strings(names: &[&str]) -> Vec<String> {
    names.iter().map(|s| s.to_string()).collect()
}

fn library(url: &str, os: Option<&str>) -> Library {
    Library {
        downloads: LibraryDownloads { artifact: Artifact { url: url.to_string() } },
        rules: match os {
            Some(name) => vec![Rule { os: Os { name: name.to_string() } }],
            None => vec![],
        },
    }
}

fn version(id: &str, url: &str) -> Versions {
    Versions {
        id: id.to_string(),
        release_type: "release".to_string(),
        url: url.to_string(),
        time: "2022-08-05T11:59:15+00:00".to_string(),
        release_time: "2022-08-05T11:57:05+00:00".to_string(),
        sha1: "68cded4616fba9fbefb3f895033c261126c5f89c".to_string(),
        compliance_level: 1,
    }
}

fn manifest(versions: Vec<Versions>) -> VersionManifest {
    VersionManifest {
        latest: Latest { release: "1.19.2".to_string(), snapshot: "1.19.2".to_string() },
        versions,
    }
}

fn asset(name: &str, hash: &str) -> Asset {
    Asset { name: name.to_string(), hash: hash.to_string() }
}

#[test]
fn asset_goes_under_the_first_two_characters_of_its_hash() {
    let game = DirPath::new("game");
    let task = asset_download(&game, "ab12cd34ef").unwrap();
    assert_eq!(task.path.parts, strings(&["game", "assets", "objects", "ab"]));
    assert_eq!(task.url, "https://resources.download.minecraft.net/ab/ab12cd34ef");
    assert_eq!(target_name(&task.url), Ok("ab12cd34ef".to_string()));
}

#[test]
fn asset_hash_of_exactly_two_digits() {
    let game = DirPath::new("game");
    let task = asset_download(&game, "0f").unwrap();
    assert_eq!(task.path.parts, strings(&["game", "assets", "objects", "0f"]));
    assert_eq!(task.url, "https://resources.download.minecraft.net/0f/0f");
    assert_eq!(target_name(&task.url), Ok("0f".to_string()));
}

#[test]
fn asset_hash_keeps_its_case() {
    let game = DirPath::new("game");
    let upper = asset_download(&game, "AB12CD").unwrap();
    assert_eq!(upper.path.parts, strings(&["game", "assets", "objects", "AB"]));
    assert_eq!(upper.url, "https://resources.download.minecraft.net/AB/AB12CD");
    assert_eq!(target_name(&upper.url), Ok("AB12CD".to_string()));
    let mixed = asset_download(&game, "aB12cD").unwrap();
    assert_eq!(mixed.path.parts, strings(&["game", "assets", "objects", "aB"]));
    let lower = asset_download(&game, "ab12cd").unwrap();
    assert_ne!(upper.path.parts, lower.path.parts);
}

#[test]
fn asset_hash_of_a_real_object() {
    let game = DirPath::new("/home/u").join(".pblm");
    let hash = "bdf48ef6b5d0d23bbb02e17d04865216179f510a";
    let task = asset_download(&game, hash).unwrap();
    assert_eq!(task.path.parts, strings(&["/home/u", ".pblm", "assets", "objects", "bd"]));
    assert_eq!(task.url, format!("{}bd/{}", ASSET_HOST, hash));
}

#[test]
fn asset_hash_without_two_characters_is_refused() {
    let game = DirPath::new("game");
    assert!(asset_download(&game, "").is_none());
    assert!(asset_download(&game, "a").is_none());
    assert!(asset_download(&game, "F").is_none());
    assert!(asset_download(&game, "\u{e9}").is_none());
}

#[test]
fn asset_hash_is_taken_as_it_is_written() {
    let game = DirPath::new("game");
    let task = asset_download(&game, "xyz123").unwrap();
    assert_eq!(task.path.parts, strings(&["game", "assets", "objects", "xy"]));
    assert_eq!(task.url, "https://resources.download.minecraft.net/xy/xyz123");
    assert_eq!(target_name(&task.url), Ok("xyz123".to_string()));
}

#[test]
fn library_with_windows_rule_goes_to_windows_natives() {
    let game = DirPath::new("game");
    let dir = library_directory(&game, &library("https://libs/w.jar", Some("windows"))).unwrap();
    assert_eq!(dir.parts, strings(&["game", "natives", "windows"]));
}

#[test]
fn library_with_linux_or_osx_rule_goes_to_its_natives() {
    let game = DirPath::new("game");
    let dir = library_directory(&game, &library("https://libs/l.jar", Some("linux"))).unwrap();
    assert_eq!(dir.parts, strings(&["game", "natives", "linux"]));
    let dir = library_directory(&game, &library("https://libs/o.jar", Some("osx"))).unwrap();
    assert_eq!(dir.parts, strings(&["game", "natives", "osx"]));
}

#[test]
fn library_without_rule_goes_to_the_generic_directory() {
    let game = DirPath::new("game");
    let dir = library_directory(&game, &library("https://libs/g.jar", None)).unwrap();
    assert_eq!(dir.parts, strings(&["game", "libraries"]));
}

#[test]
fn library_with_unknown_rule_has_no_directory() {
    let game = DirPath::new("game");
    assert!(library_directory(&game, &library("https://libs/x.jar", Some("solaris"))).is_none());
    assert!(library_directory(&game, &library("https://libs/x.jar", Some("macos"))).is_none());
    assert!(library_directory(&game, &library("https://libs/x.jar", Some("Windows"))).is_none());
    assert!(library_directory(&game, &library("https://libs/x.jar", Some(""))).is_none());
}

#[test]
fn only_the_first_rule_of_a_library_counts() {
    let game = DirPath::new("game");
    let mut lib = library("https://libs/x.jar", Some("linux"));
    lib.rules.push(Rule { os: Os { name: "windows".to_string() } });
    assert_eq!(library_directory(&game, &lib).unwrap().parts, strings(&["game", "natives", "linux"]));
    let mut lib = library("https://libs/x.jar", Some("amiga"));
    lib.rules.push(Rule { os: Os { name: "windows".to_string() } });
    assert!(library_directory(&game, &lib).is_none());
}

#[test]
fn libraries_with_unknown_rule_are_left_out_of_the_queue() {
    let mut installer = Installer::new("1.19.2", "linux", "/home/u").unwrap();
    let file = VersionFile {
        asset_index: Artifact { url: "https://example/index.json".to_string() },
        downloads: Downloads { client: Artifact { url: "https://example/client.jar".to_string() } },
        libraries: vec![
            library("https://libs/a.jar", None),
            library("https://libs/b.jar", Some("plan9")),
            library("https://libs/c.jar", Some("windows")),
            library("https://libs/d.jar", Some("beos")),
        ],
    };
    assert_eq!(installer.install_libraries(&file), Ok(2));
    let tasks = installer.downloader.tasks();
    assert_eq!(tasks.len(), 2);
    assert_eq!(tasks[0].url, "https://libs/a.jar");
    assert_eq!(tasks[0].path.parts, strings(&["/home/u", ".pblm", "libraries"]));
    assert_eq!(tasks[1].url, "https://libs/c.jar");
    assert_eq!(tasks[1].path.parts, strings(&["/home/u", ".pblm", "natives", "windows"]));
}

#[test]
fn install_queues_every_artifact_once() {
    let listed = manifest(vec![
        version("1.20", "https://example/1.20.json"),
        version("1.19.2", "https://example/1.19.2.json"),
    ]);
    let mut installer = Installer::new("1.19.2", "windows", "C:/Users/u").unwrap();
    assert_eq!(installer.version_url(&listed), Ok("https://example/1.19.2.json".to_string()));
    let file = VersionFile {
        asset_index: Artifact { url: "https://example/indexes/1.19.json".to_string() },
        downloads: Downloads { client: Artifact { url: "https://example/client.jar".to_string() } },
        libraries: vec![
            library("https://libs/only-windows.jar", Some("windows")),
            library("https://libs/everywhere.jar", None),
        ],
    };
    let index = AssetIndex {
        objects: vec![
            asset("icons/icon_16x16.png", "bdf48ef6b5d0d23bbb02e17d04865216179f510a"),
            asset("minecraft/lang/fr_fr.json", "0f4a6f2d8e1b3c5a7d9e0f1a2b3c4d5e6f708192"),
            asset("minecraft/sounds/dig/grass1.ogg", "41cbf5dd08e951ad65883854e74d2e4c5f00f2b2"),
        ],
    };
    assert_eq!(installer.install(&file, &index), Ok(0));
    let fabric = get_fabric_libs();
    let mods = get_mod_list();
    let tasks = installer.downloader.tasks();
    assert_eq!(tasks.len(), 1 + 3 + 1 + 2 + fabric.len() + mods.len());
    assert_eq!(tasks.len(), 33);
    assert_eq!(installer.downloader.queued(), 33);
    let game = ["C:/Users/u", ".pblm"];
    let under = |names: &[&str]| -> Vec<String> {
        game.iter().chain(names.iter()).map(|s| s.to_string()).collect()
    };
    assert_eq!(tasks[0].url, "https://example/indexes/1.19.json");
    assert_eq!(tasks[0].path.parts, under(&["assets", "indexes"]));
    assert_eq!(
        tasks[1].url,
        "https://resources.download.minecraft.net/bd/bdf48ef6b5d0d23bbb02e17d04865216179f510a"
    );
    assert_eq!(tasks[1].path.parts, under(&["assets", "objects", "bd"]));
    assert_eq!(tasks[2].path.parts, under(&["assets", "objects", "0f"]));
    assert_eq!(tasks[3].path.parts, under(&["assets", "objects", "41"]));
    assert_eq!(tasks[4].url, "https://libs/only-windows.jar");
    assert_eq!(tasks[4].path.parts, under(&["natives", "windows"]));
    assert_eq!(tasks[5].url, "https://libs/everywhere.jar");
    assert_eq!(tasks[5].path.parts, under(&["libraries"]));
    assert_eq!(tasks[6].url, "https://example/client.jar");
    assert_eq!(tasks[6].path.parts, under(&["client"]));
    for (i, url) in fabric.iter().enumerate() {
        assert_eq!(&tasks[7 + i].url, url);
        assert_eq!(tasks[7 + i].path.parts, under(&["libraries", "fabric"]));
    }
    for (i, url) in mods.iter().enumerate() {
        assert_eq!(&tasks[7 + fabric.len() + i].url, url);
        assert_eq!(tasks[7 + fabric.len() + i].path.parts, under(&["mods"]));
    }
}

#[test]
fn install_with_a_bad_hash_queues_nothing() {
    let mut installer = Installer::new("1.19.2", "linux", "/home/u").unwrap();
    let file = VersionFile {
        asset_index: Artifact { url: "https://example/indexes/1.19.json".to_string() },
        downloads: Downloads { client: Artifact { url: "https://example/client.jar".to_string() } },
        libraries: vec![library("https://libs/everywhere.jar", None)],
    };
    let index = AssetIndex {
        objects: vec![asset("a", "ab12"), asset("b", "cd"), asset("c", "x"), asset("d", "")],
    };
    assert_eq!(installer.install(&file, &index), Err(InstallError::BadAssetHash { index: 2 }));
    assert_eq!(installer.downloader.queued(), 0);
    assert_eq!(installer.install_assets(&file, &index), Err(InstallError::BadAssetHash { index: 2 }));
    assert_eq!(installer.downloader.queued(), 0);
}

#[test]
fn install_assets_queues_the_index_first() {
    let mut installer = Installer::new("1.19.2", "macos", "/Users/u").unwrap();
    let file = VersionFile {
        asset_index: Artifact { url: "https://example/indexes/1.19.json".to_string() },
        downloads: Downloads { client: Artifact { url: "https://example/client.jar".to_string() } },
        libraries: vec![],
    };
    assert_eq!(installer.install_assets(&file, &AssetIndex { objects: vec![] }), Ok(()));
    let tasks = installer.downloader.tasks();
    assert_eq!(tasks.len(), 1);
    assert_eq!(tasks[0].url, "https://example/indexes/1.19.json");
    assert_eq!(tasks[0].path.parts, strings(&["/Users/u", ".pblm", "assets", "indexes"]));
}

#[test]
fn install_client_fabric_and_mods_queue_into_their_directories() {
    let mut installer = Installer::new("1.19.2", "linux", "/home/u").unwrap();
    let file = VersionFile {
        asset_index: Artifact { url: "https://example/indexes/1.19.json".to_string() },
        downloads: Downloads { client: Artifact { url: "https://example/client.jar".to_string() } },
        libraries: vec![],
    };
    assert_eq!(installer.install_client(&file), Ok(()));
    assert_eq!(installer.downloader.queued(), 1);
    assert_eq!(installer.install_fabric(), Ok(()));
    assert_eq!(installer.downloader.queued(), 12);
    assert_eq!(installer.install_mods(), Ok(()));
    assert_eq!(installer.downloader.queued(), 27);
    let tasks = installer.downloader.tasks();
    assert_eq!(tasks[0].path.parts, strings(&["/home/u", ".pblm", "client"]));
    assert_eq!(tasks[1].path.parts, strings(&["/home/u", ".pblm", "libraries", "fabric"]));
    assert_eq!(tasks[26].path.parts, strings(&["/home/u", ".pblm", "mods"]));
    assert_eq!(
        tasks[26].url,
        "https://cdn.modrinth.com/data/Wnxd13zP/versions/3GURrv52/Clumps-forge-1.19.2-9.0.0%2B14.jar"
    );
}

#[test]
fn installer_knows_three_systems() {
    for os in ["linux", "macos", "windows"] {
        let installer = Installer::new("1.19.2", os, "/home/u").unwrap();
        assert_eq!(installer.sys.os, os);
        assert_eq!(installer.game.minecraft_version, "1.19.2");
        assert_eq!(installer.sys.game_dir.parts, strings(&["/home/u", ".pblm"]));
        assert_eq!(installer.downloader.queued(), 0);
    }
    assert!(matches!(Installer::new("1.19.2", "freebsd", "/home/u"), Err(InstallError::UnsupportedOs)));
    assert!(matches!(Installer::new("1.19.2", "osx", "/home/u"), Err(InstallError::UnsupportedOs)));
    assert!(matches!(Installer::new("1.19.2", "", "/home/u"), Err(InstallError::UnsupportedOs)));
}

#[test]
fn version_is_found_by_its_id() {
    let installer = Installer::new("1.19.2", "linux", "/home/u").unwrap();
    let listed = manifest(vec![
        version("1.19.3", "https://example/1.19.3.json"),
        version("1.19.2", "https://example/first.json"),
        version("1.19.2", "https://example/second.json"),
    ]);
    assert_eq!(installer.version_url(&listed), Ok("https://example/first.json".to_string()));
    assert_eq!(listed.find(&"1.19.3".to_string()).map(|v| v.url.as_str()), Some("https://example/1.19.3.json"));
    assert!(listed.find(&"1.19".to_string()).is_none());
}

#[test]
fn unknown_version_is_an_error() {
    let installer = Installer::new("1.7.10", "linux", "/home/u").unwrap();
    let listed = manifest(vec![version("1.19.2", "https://example/1.19.2.json")]);
    assert_eq!(installer.version_url(&listed), Err(InstallError::UnknownVersion));
    assert_eq!(installer.version_url(&manifest(vec![])), Err(InstallError::UnknownVersion));
}

#[test]
fn version_manifest_is_fetched_from_the_vendor() {
    assert_eq!(VERSION_MANIFEST, "https://piston-meta.mojang.com/mc/game/version_manifest_v2.json");
    assert_eq!(target_name(VERSION_MANIFEST), Ok("version_manifest_v2.json".to_string()));
}

#[test]
fn fabric_libraries_are_eleven() {
    let libs = get_fabric_libs();
    assert_eq!(libs.len(), 11);
    assert_eq!(
        libs[0],
        "https://maven.fabricmc.net/net/fabricmc/tiny-mappings-parser/0.3.0+build.17/tiny-mappings-parser-0.3.0+build.17.jar"
    );
    assert_eq!(libs[4], "https://maven.fabricmc.net/org/ow2/asm/asm/9.5/asm-9.5.jar");
    assert_eq!(
        libs[10],
        "https://maven.fabricmc.net/net/fabricmc/fabric-loader/0.14.21/fabric-loader-0.14.21.jar"
    );
    for url in &libs {
        assert!(target_name(url).unwrap().ends_with(".jar"));
    }
}

#[test]
fn mods_are_fifteen() {
    let mods = get_mod_list();
    assert_eq!(mods.len(), 15);
    assert_eq!(
        mods[0],
        "https://cdn.modrinth.com/data/P7dR8mSH/versions/hfsU4hXq/fabric-api-0.76.0%2B1.19.2.jar"
    );
    assert_eq!(
        mods[8],
        "https://cdn.modrinth.com/data/NcUtCpym/versions/st6Yi8FJ/XaerosWorldMap_1.31.0_Fabric_1.19.1.jar"
    );
    assert_eq!(
        mods[9],
        "https://cdn.modrinth.com/data/1bokaNcj/versions/LKcX5Que/Xaeros_Minimap_23.6.0_Fabric_1.19.1.jar"
    );
    assert_eq!(
        mods[14],
        "https://cdn.modrinth.com/data/Wnxd13zP/versions/3GURrv52/Clumps-forge-1.19.2-9.0.0%2B14.jar"
    );
    assert_eq!(target_name(&mods[0]), Ok("fabric-api-0.76.0%2B1.19.2.jar".to_string()));
}

#[test]
fn directories_are_joined_name_by_name() {
    let base = DirPath::new("/home/u");
    let child = base.child("a");
    assert_eq!(base.parts, strings(&["/home/u"]));
    assert_eq!(child.parts, strings(&["/home/u", "a"]));
    assert_eq!(child.clone().join("b").parts, strings(&["/home/u", "a", "b"]));
    assert_eq!(child.clone().parts, child.parts);
}

#[test]
fn queue_grows_by_one_task_for_each_artifact() {
    for assets in [0usize, 1, 7] {
        for libraries in [0usize, 1, 4] {
            let mut installer = Installer::new("1.19.2", "linux", "/home/u").unwrap();
            let file = VersionFile {
                asset_index: Artifact { url: "https://example/indexes/1.19.json".to_string() },
                downloads: Downloads {
                    client: Artifact { url: "https://example/client.jar".to_string() },
                },
                libraries: (0..libraries)
                    .map(|i| {
                        let url = format!("https://libs/{}.jar", i);
                        if i % 2 == 0 {
                            library(&url, None)
                        } else {
                            library(&url, Some("osx"))
                        }
                    })
                    .collect(),
            };
            let index = AssetIndex {
                objects: (0..assets)
                    .map(|i| asset(&format!("object-{}", i), &format!("{:02x}c0ffee", i)))
                    .collect(),
            };
            assert_eq!(installer.install(&file, &index), Ok(0));
            assert_eq!(
                installer.downloader.queued(),
                1 + assets + 1 + libraries + get_fabric_libs().len() + get_mod_list().len()
            );
            assert_eq!(installer.downloader.queued(), 1 + assets + 1 + libraries + 11 + 15);
        }
    }
}

#[test]
fn library_left_out_is_missing_from_the_count() {
    let mut installer = Installer::new("1.19.2", "linux", "/home/u").unwrap();
    let file = VersionFile {
        asset_index: Artifact { url: "https://example/indexes/1.19.json".to_string() },
        downloads: Downloads { client: Artifact { url: "https://example/client.jar".to_string() } },
        libraries: vec![
            library("https://libs/a.jar", None),
            library("https://libs/b.jar", Some("amiga")),
            library("https://libs/c.jar", Some("linux")),
        ],
    };
    let index = AssetIndex { objects: vec![asset("a", "ab12")] };
    assert_eq!(installer.install(&file, &index), Ok(1));
    assert_eq!(installer.downloader.queued(), 1 + 1 + 1 + 2 + 11 + 15);
}

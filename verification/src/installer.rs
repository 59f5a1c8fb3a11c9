//! Planning an installation: every artifact of a game version becomes one
//! task of the download queue.

use vstd::prelude::*;
use vstd::string::*;
use crate::downloader::{Download, DownloadView, Downloader};
use crate::locate::{file_name, lemma_last_slash_is, path_file_name, url_path};
use crate::fabric::{fabric_lib_urls, get_fabric_libs};
use crate::mods::{get_mod_list, mod_urls};
use crate::paths::DirPath;
use crate::text::{same_text, texts};
use self::version_file::{Asset, AssetIndex, Library, VersionFile};
use self::version_manifest::VersionManifest;

pub mod version_file;
pub mod version_manifest;

verus! {

/// Where the list of published versions is fetched.
pub const VERSION_MANIFEST: &'static str =
    "https://piston-meta.mojang.com/mc/game/version_manifest_v2.json";

/// The host that serves asset objects by their hash.
pub const ASSET_HOST: &'static str = "https://resources.download.minecraft.net/";

/// Why an installation cannot be planned.
#[derive(Clone, Copy, Debug, PartialEq, Eq, Structural)]
pub enum InstallError {
    /// The operating system is none of `linux`, `macos` and `windows`.
    UnsupportedOs,
    /// The version manifest lists no version with the wanted id.
    UnknownVersion,
    /// The asset at this index of the asset index has a hash of fewer than
    /// two characters, from which no directory can be taken.
    BadAssetHash { index: usize },
}

#[derive(Debug)]
pub struct GameInfo {
    pub minecraft_version: String,
}

#[derive(Debug)]
pub struct SysInfo {
    pub os: String,
    pub game_dir: DirPath,
}

pub struct Installer {
    pub game: GameInfo,
    pub sys: SysInfo,
    pub downloader: Downloader,
}

/// The operating systems on which the game can be installed.
pub open spec fn supported_os(os: Seq<char>) -> bool {
    os == "linux"@ || os == "macos"@ || os == "windows"@
}

/// The systems that a library rule can name.
pub open spec fn natives_os(name: Seq<char>) -> bool {
    name == "linux"@ || name == "osx"@ || name == "windows"@
}

/// A hash that has a two-character prefix.
pub open spec fn has_prefix(hash: Seq<char>) -> bool {
    hash.len() >= 2
}

pub open spec fn is_hex_digit(c: char) -> bool {
    ('0' <= c && c <= '9') || ('a' <= c && c <= 'f') || ('A' <= c && c <= 'F')
}

/// A content hash as it is published: two or more hexadecimal digits, of
/// either case.
pub open spec fn valid_hash(hash: Seq<char>) -> bool {
    &&& hash.len() >= 2
    &&& forall|i: int| 0 <= i < hash.len() ==> is_hex_digit(#[trigger] hash[i])
}

/// The directory of an asset object: `assets/objects/` and the first two
/// characters of its hash, as they are written.
pub open spec fn asset_dir(game_dir: Seq<Seq<char>>, hash: Seq<char>) -> Seq<Seq<char>> {
    game_dir.push("assets"@).push("objects"@).push(hash.take(2))
}

/// Where an asset object is fetched: the asset host, the first two
/// characters of the hash, a slash and the hash.
pub open spec fn asset_url(hash: Seq<char>) -> Seq<char> {
    ASSET_HOST@ + hash.take(2) + seq!['/'] + hash
}

/// The task that acquires the asset object with `hash`.
pub open spec fn asset_task(game_dir: Seq<Seq<char>>, hash: Seq<char>) -> DownloadView {
    DownloadView { url: asset_url(hash), dir: asset_dir(game_dir, hash) }
}

/// The tasks for the assets: the asset index itself, then one task for each
/// object that it lists.
pub open spec fn asset_tasks(
    game_dir: Seq<Seq<char>>,
    index_url: Seq<char>,
    objects: Seq<Asset>,
) -> Seq<DownloadView> {
    seq![DownloadView { url: index_url, dir: game_dir.push("assets"@).push("indexes"@) }]
        + Seq::new(objects.len(), |i: int| asset_task(game_dir, objects[i].hash@))
}

/// The directory that a library goes to: the generic one where it has no
/// rule, the natives directory of the system that its first rule names
/// where that is one of `linux`, `osx` and `windows`, and none otherwise.
pub open spec fn library_dir(game_dir: Seq<Seq<char>>, library: Library) -> Option<
    Seq<Seq<char>>,
> {
    if library.rules@.len() == 0 {
        Some(game_dir.push("libraries"@))
    } else if natives_os(library.rules@[0].os.name@) {
        Some(game_dir.push("natives"@).push(library.rules@[0].os.name@))
    } else {
        None
    }
}

/// The tasks for the libraries, in their order. A library that has no
/// directory gives no task.
pub open spec fn library_tasks(game_dir: Seq<Seq<char>>, libraries: Seq<Library>) -> Seq<
    DownloadView,
>
    decreases libraries.len(),
{
    if libraries.len() == 0 {
        Seq::empty()
    } else {
        let front = library_tasks(game_dir, libraries.drop_last());
        match library_dir(game_dir, libraries.last()) {
            Some(dir) => front.push(
                DownloadView { url: libraries.last().downloads.artifact.url@, dir },
            ),
            None => front,
        }
    }
}

/// The task for the game's own jar.
pub open spec fn client_task(game_dir: Seq<Seq<char>>, url: Seq<char>) -> DownloadView {
    DownloadView { url, dir: game_dir.push("client"@) }
}

/// One task for each of `urls`, all into `dir`.
pub open spec fn tasks_into(dir: Seq<Seq<char>>, urls: Seq<Seq<char>>) -> Seq<DownloadView> {
    Seq::new(urls.len(), |i: int| DownloadView { url: urls[i], dir })
}

/// The tasks for the mod loader's libraries.
pub open spec fn fabric_tasks(game_dir: Seq<Seq<char>>) -> Seq<DownloadView> {
    tasks_into(game_dir.push("libraries"@).push("fabric"@), fabric_lib_urls())
}

/// The tasks for the mods.
pub open spec fn mod_tasks(game_dir: Seq<Seq<char>>) -> Seq<DownloadView> {
    tasks_into(game_dir.push("mods"@), mod_urls())
}

/// Everything that an installation queues, in order: assets, libraries,
/// client, mod loader, mods.
pub open spec fn install_plan(
    game_dir: Seq<Seq<char>>,
    version_file: VersionFile,
    asset_index: AssetIndex,
) -> Seq<DownloadView> {
    asset_tasks(game_dir, version_file.asset_index.url@, asset_index.objects@) + library_tasks(
        game_dir,
        version_file.libraries@,
    ) + seq![client_task(game_dir, version_file.downloads.client.url@)] + fabric_tasks(game_dir)
        + mod_tasks(game_dir)
}

/// The task that acquires the asset object with `hash` under `game_dir`,
/// or `None` where `hash` has fewer than two characters. The two-character
/// directory is the start of the hash as it is written: its case is kept.
pub fn asset_download(game_dir: &DirPath, hash: &str) -> (r: Option<Download>)
    ensures
        r is Some <==> has_prefix(hash@),
        r matches Some(task) ==> task@ == asset_task(game_dir@, hash@),
{
    if hash.unicode_len() < 2 {
        return None;
    }
    let prefix = hash.substring_char(0, 2);
    let path = game_dir.child("assets").join("objects").join(prefix);
    let mut url = String::from_str(ASSET_HOST);
    url.append(prefix);
    url.append("/");
    url.append(hash);
    proof {
        reveal_strlit("/");
        assert("/"@ =~= seq!['/']);
    }
    Some(Download { url, path })
}

/// The directory that `library` goes to under `game_dir`, if it has one.
pub fn library_directory(game_dir: &DirPath, library: &Library) -> (r: Option<DirPath>)
    ensures
        match r {
            Some(dir) => library_dir(game_dir@, *library) == Some(dir@),
            None => library_dir(game_dir@, *library) is None,
        },
{
    if library.rules.len() == 0 {
        return Some(game_dir.child("libraries"));
    }
    let name = library.rules[0].os.name.as_str();
    if same_text(name, "linux") || same_text(name, "osx") || same_text(name, "windows") {
        Some(game_dir.child("natives").join(name))
    } else {
        None
    }
}

impl Installer {
    /// An installer for `minecraft_version` on the system `os`, whose game
    /// directory is `.pblm` under `home_dir`, with an empty queue.
    pub fn new(minecraft_version: &str, os: &str, home_dir: &str) -> (r: Result<
        Self,
        InstallError,
    >)
        ensures
            r is Ok <==> supported_os(os@),
            r matches Err(e) ==> e == InstallError::UnsupportedOs,
            r matches Ok(installer) ==> {
                &&& installer.game.minecraft_version@ == minecraft_version@
                &&& installer.sys.os@ == os@
                &&& installer.sys.game_dir@ == seq![home_dir@, ".pblm"@]
                &&& installer.downloader@ == Seq::<DownloadView>::empty()
            },
    {
        if !(same_text(os, "linux") || same_text(os, "macos") || same_text(os, "windows")) {
            return Err(InstallError::UnsupportedOs);
        }
        let game_dir = DirPath::new(home_dir).join(".pblm");
        Ok(
            Installer {
                game: GameInfo { minecraft_version: String::from_str(minecraft_version) },
                sys: SysInfo { os: String::from_str(os), game_dir },
                downloader: Downloader::new(),
            },
        )
    }

    /// Where the version file of the wanted version is fetched: the URL of
    /// the first version of `manifest` with the wanted id.
    pub fn version_url(&self, manifest: &VersionManifest) -> (r: Result<String, InstallError>)
        ensures
            match r {
                Ok(url) => exists|i: int|
                    {
                        &&& self::version_manifest::is_first_with_id(
                            manifest.versions@,
                            self.game.minecraft_version@,
                            i,
                        )
                        &&& url@ == manifest.versions@[i].url@
                    },
                Err(e) => e == InstallError::UnknownVersion && forall|i: int|
                    0 <= i < manifest.versions@.len() ==> manifest.versions@[i].id@
                        != self.game.minecraft_version@,
            },
    {
        match manifest.find(&self.game.minecraft_version) {
            Some(version) => Ok(version.url.clone()),
            None => Err(InstallError::UnknownVersion),
        }
    }

    /// Queues one task for each of `urls`, all into `dir`.
    fn push_all(&mut self, urls: &Vec<String>, dir: &DirPath)
        ensures
            final(self).downloader@ == old(self).downloader@ + tasks_into(dir@, texts(urls@)),
            final(self).downloader.results() == old(self).downloader.results(),
            final(self).game == old(self).game,
            final(self).sys == old(self).sys,
    {
        let mut i: usize = 0;
        while i < urls.len()
            invariant
                0 <= i <= urls@.len(),
                self.downloader@ == old(self).downloader@ + tasks_into(dir@, texts(urls@)).take(
                    i as int,
                ),
                self.downloader.results() == old(self).downloader.results(),
                self.game == old(self).game,
                self.sys == old(self).sys,
            decreases urls@.len() - i,
        {
            let _ = self.downloader.push_to_queue(urls[i].clone(), dir.clone());
            i = i + 1;
        }
    }

    /// Queues the asset index of `version_file` and every object that
    /// `asset_index` lists. Where an object's hash has fewer than two characters,
    /// nothing is queued and the first such object is reported.
    pub fn install_assets(&mut self, version_file: &VersionFile, asset_index: &AssetIndex) -> (r:
        Result<(), InstallError>)
        ensures
            final(self).game == old(self).game,
            final(self).sys == old(self).sys,
            final(self).downloader.results() == old(self).downloader.results(),
            match r {
                Ok(_) => {
                    &&& forall|i: int|
                        0 <= i < asset_index.objects@.len() ==> has_prefix(
                            #[trigger] asset_index.objects@[i].hash@,
                        )
                    &&& final(self).downloader@ == old(self).downloader@ + asset_tasks(
                        old(self).sys.game_dir@,
                        version_file.asset_index.url@,
                        asset_index.objects@,
                    )
                },
                Err(e) => {
                    &&& final(self).downloader@ == old(self).downloader@
                    &&& exists|k: int|
                        {
                            &&& 0 <= k < asset_index.objects@.len()
                            &&& e == (InstallError::BadAssetHash { index: k as usize })
                            &&& !has_prefix(asset_index.objects@[k].hash@)
                            &&& forall|i: int|
                                0 <= i < k ==> has_prefix(#[trigger] asset_index.objects@[i].hash@)
                        }
                },
            },
    {
        let mut k: usize = 0;
        while k < asset_index.objects.len()
            invariant
                0 <= k <= asset_index.objects@.len(),
                forall|i: int| 0 <= i < k ==> has_prefix(#[trigger] asset_index.objects@[i].hash@),
                *self == *old(self),
            decreases asset_index.objects@.len() - k,
        {
            if asset_index.objects[k].hash.as_str().unicode_len() < 2 {
                return Err(InstallError::BadAssetHash { index: k });
            }
            k = k + 1;
        }
        let ghost plan = asset_tasks(
            self.sys.game_dir@,
            version_file.asset_index.url@,
            asset_index.objects@,
        );
        let index_path = self.sys.game_dir.child("assets").join("indexes");
        let _ = self.downloader.push_to_queue(version_file.asset_index.url.clone(), index_path);
        let mut i: usize = 0;
        while i < asset_index.objects.len()
            invariant
                0 <= i <= asset_index.objects@.len(),
                forall|j: int|
                    0 <= j < asset_index.objects@.len() ==> has_prefix(
                        #[trigger] asset_index.objects@[j].hash@,
                    ),
                plan == asset_tasks(
                    old(self).sys.game_dir@,
                    version_file.asset_index.url@,
                    asset_index.objects@,
                ),
                self.downloader@ == old(self).downloader@ + plan.take(1 + i),
                self.downloader.results() == old(self).downloader.results(),
                self.game == old(self).game,
                self.sys == old(self).sys,
            decreases asset_index.objects@.len() - i,
        {
            match asset_download(&self.sys.game_dir, asset_index.objects[i].hash.as_str()) {
                Some(Download { url, path }) => {
                    let _ = self.downloader.push_to_queue(url, path);
                },
                None => {},
            }
            i = i + 1;
        }
        Ok(())
    }

    /// Queues the game's own jar.
    pub fn install_client(&mut self, version_file: &VersionFile) -> (r: Result<(), InstallError>)
        ensures
            r is Ok,
            final(self).game == old(self).game,
            final(self).sys == old(self).sys,
            final(self).downloader.results() == old(self).downloader.results(),
            final(self).downloader@ == old(self).downloader@.push(
                client_task(old(self).sys.game_dir@, version_file.downloads.client.url@),
            ),
    {
        let path = self.sys.game_dir.child("client");
        let _ = self.downloader.push_to_queue(version_file.downloads.client.url.clone(), path);
        Ok(())
    }

    /// Queues every library of `version_file` that has a directory, and
    /// returns how many had none and were left out.
    pub fn install_libraries(&mut self, version_file: &VersionFile) -> (r: Result<
        usize,
        InstallError,
    >)
        ensures
            final(self).game == old(self).game,
            final(self).sys == old(self).sys,
            final(self).downloader.results() == old(self).downloader.results(),
            final(self).downloader@ == old(self).downloader@ + library_tasks(
                old(self).sys.game_dir@,
                version_file.libraries@,
            ),
            r matches Ok(skipped) && skipped + library_tasks(
                old(self).sys.game_dir@,
                version_file.libraries@,
            ).len() == version_file.libraries@.len(),
    {
        let ghost dir = self.sys.game_dir@;
        let mut skipped: usize = 0;
        let mut i: usize = 0;
        while i < version_file.libraries.len()
            invariant
                0 <= i <= version_file.libraries@.len(),
                dir == old(self).sys.game_dir@,
                self.downloader@ == old(self).downloader@ + library_tasks(
                    dir,
                    version_file.libraries@.take(i as int),
                ),
                skipped + library_tasks(dir, version_file.libraries@.take(i as int)).len() == i,
                self.downloader.results() == old(self).downloader.results(),
                self.game == old(self).game,
                self.sys == old(self).sys,
            decreases version_file.libraries@.len() - i,
        {
            let library = &version_file.libraries[i];
            proof {
                let upto = version_file.libraries@.take(i + 1);
                assert(upto.drop_last() =~= version_file.libraries@.take(i as int));
            }
            match library_directory(&self.sys.game_dir, library) {
                Some(path) => {
                    let _ = self.downloader.push_to_queue(
                        library.downloads.artifact.url.clone(),
                        path,
                    );
                    assert(self.downloader@ =~= old(self).downloader@ + library_tasks(
                        dir,
                        version_file.libraries@.take(i + 1),
                    ));
                },
                None => {
                    skipped = skipped + 1;
                },
            }
            i = i + 1;
        }
        assert(version_file.libraries@.take(i as int) =~= version_file.libraries@);
        Ok(skipped)
    }

    /// Queues the mod loader's libraries.
    pub fn install_fabric(&mut self) -> (r: Result<(), InstallError>)
        ensures
            r is Ok,
            final(self).game == old(self).game,
            final(self).sys == old(self).sys,
            final(self).downloader.results() == old(self).downloader.results(),
            final(self).downloader@ == old(self).downloader@ + fabric_tasks(
                old(self).sys.game_dir@,
            ),
    {
        let libs = get_fabric_libs();
        let path = self.sys.game_dir.child("libraries").join("fabric");
        self.push_all(&libs, &path);
        Ok(())
    }

    /// Queues the mods.
    pub fn install_mods(&mut self) -> (r: Result<(), InstallError>)
        ensures
            r is Ok,
            final(self).game == old(self).game,
            final(self).sys == old(self).sys,
            final(self).downloader.results() == old(self).downloader.results(),
            final(self).downloader@ == old(self).downloader@ + mod_tasks(old(self).sys.game_dir@),
    {
        let mods = get_mod_list();
        let path = self.sys.game_dir.child("mods");
        self.push_all(&mods, &path);
        Ok(())
    }

    /// Queues everything that the installation of `version_file` needs:
    /// assets, libraries, client, mod loader and mods, in this order.
    /// Returns how many libraries were left out for want of a directory.
    /// The queue grows by one task for the asset index, one for each asset
    /// object, one for each library that was not left out, one for the
    /// client, eleven for the mod loader and fifteen for the mods.
    /// Where an asset's hash has fewer than two characters, nothing is queued.
    pub fn install(&mut self, version_file: &VersionFile, asset_index: &AssetIndex) -> (r: Result<
        usize,
        InstallError,
    >)
        ensures
            final(self).game == old(self).game,
            final(self).sys == old(self).sys,
            final(self).downloader.results() == old(self).downloader.results(),
            match r {
                Ok(skipped) => {
                    &&& forall|i: int|
                        0 <= i < asset_index.objects@.len() ==> has_prefix(
                            #[trigger] asset_index.objects@[i].hash@,
                        )
                    &&& final(self).downloader@ == old(self).downloader@ + install_plan(
                        old(self).sys.game_dir@,
                        *version_file,
                        *asset_index,
                    )
                    &&& skipped + library_tasks(
                        old(self).sys.game_dir@,
                        version_file.libraries@,
                    ).len() == version_file.libraries@.len()
                    &&& final(self).downloader@.len() == old(self).downloader@.len() + 1
                        + asset_index.objects@.len() + 1 + (version_file.libraries@.len() - skipped)
                        + 11 + 15
                    &&& (forall|i: int|
                        0 <= i < version_file.libraries@.len() ==> library_dir(
                            old(self).sys.game_dir@,
                            #[trigger] version_file.libraries@[i],
                        ) is Some) ==> skipped == 0
                },
                Err(e) => {
                    &&& final(self).downloader@ == old(self).downloader@
                    &&& exists|k: int|
                        {
                            &&& 0 <= k < asset_index.objects@.len()
                            &&& e == (InstallError::BadAssetHash { index: k as usize })
                            &&& !has_prefix(asset_index.objects@[k].hash@)
                            &&& forall|i: int|
                                0 <= i < k ==> has_prefix(#[trigger] asset_index.objects@[i].hash@)
                        }
                },
            },
    {
        match self.install_assets(version_file, asset_index) {
            Err(e) => {
                return Err(e);
            },
            Ok(_) => {},
        }
        let skipped = match self.install_libraries(version_file) {
            Ok(n) => n,
            Err(e) => {
                return Err(e);
            },
        };
        let _ = self.install_client(version_file);
        let _ = self.install_fabric();
        let _ = self.install_mods();
        proof {
            lemma_plan_size(old(self).sys.game_dir@, *version_file, *asset_index);
            let dir = old(self).sys.game_dir@;
            let a = asset_tasks(dir, version_file.asset_index.url@, asset_index.objects@);
            let l = library_tasks(dir, version_file.libraries@);
            let c = client_task(dir, version_file.downloads.client.url@);
            assert(self.downloader@ =~= old(self).downloader@ + (a + l + seq![c] + fabric_tasks(dir)
                + mod_tasks(dir)));
        }
        Ok(skipped)
    }
}

/// The path that the URL of an asset object has as it is written: a
/// slash, the first two characters of the hash, a slash and the hash.
pub open spec fn asset_url_path(hash: Seq<char>) -> Seq<char> {
    seq!['/'] + hash.take(2) + seq!['/'] + hash
}

/// An asset object lies in the directory named by the first two characters
/// of its hash, under the hash as its name: `assets/objects/ab/ab12cd` for
/// the hash `ab12cd`. This holds of every content hash, one of two digits
/// and one with capital digits among them, as long as the URL parser gives
/// the path of the object's URL as it is written.
pub proof fn lemma_asset_place(game_dir: Seq<Seq<char>>, hash: Seq<char>)
    requires
        valid_hash(hash),
    ensures
        has_prefix(hash),
        asset_task(game_dir, hash).dir == game_dir + seq!["assets"@, "objects"@, hash.take(2)],
        hash.take(2) == seq![hash[0], hash[1]],
        path_file_name(asset_url_path(hash)) == Some(hash),
        url_path(asset_url(hash)) == Some(asset_url_path(hash)) ==> file_name(
            asset_task(game_dir, hash).url,
        ) == Some(hash),
{
    let path = asset_url_path(hash);
    assert forall|j: int| 3 < j < path.len() implies path[j] != '/' by {}
    lemma_last_slash_is(path, 3);
}

/// No library is put where it does not belong: the tasks for the libraries
/// are, in order, those of the libraries that have a directory, each with
/// the URL of its library and into the directory of its library, and the
/// libraries without a directory have no task.
pub proof fn lemma_library_tasks(game_dir: Seq<Seq<char>>, libraries: Seq<Library>)
    ensures
        library_tasks(game_dir, libraries).len() <= libraries.len(),
        forall|t: int|
            0 <= t < library_tasks(game_dir, libraries).len() ==> exists|i: int|
                {
                    &&& 0 <= i < libraries.len()
                    &&& (#[trigger] library_tasks(game_dir, libraries)[t]).url
                        == libraries[i].downloads.artifact.url@
                    &&& library_dir(game_dir, libraries[i]) == Some(
                        library_tasks(game_dir, libraries)[t].dir,
                    )
                },
        (forall|i: int| 0 <= i < libraries.len() ==> library_dir(game_dir, #[trigger] libraries[i])
            is Some) ==> library_tasks(game_dir, libraries).len() == libraries.len(),
        (forall|i: int| 0 <= i < libraries.len() ==> library_dir(game_dir, #[trigger] libraries[i])
            is None) ==> library_tasks(game_dir, libraries).len() == 0,
    decreases libraries.len(),
{
    if libraries.len() > 0 {
        let front = libraries.drop_last();
        lemma_library_tasks(game_dir, front);
        let tasks = library_tasks(game_dir, libraries);
        assert forall|t: int| 0 <= t < tasks.len() implies exists|i: int|
            {
                &&& 0 <= i < libraries.len()
                &&& (#[trigger] tasks[t]).url == libraries[i].downloads.artifact.url@
                &&& library_dir(game_dir, libraries[i]) == Some(tasks[t].dir)
            } by {}
        assert forall|i: int| 0 <= i < front.len() implies front[i] == libraries[i] by {}
    }
}

/// A library whose first rule names `windows` goes to `natives/windows`, one
/// without rules to `libraries`, and one whose first rule names a system
/// other than `linux`, `osx` and `windows` goes nowhere.
pub proof fn lemma_library_rule(game_dir: Seq<Seq<char>>, library: Library)
    ensures
        library.rules@.len() == 0 ==> library_dir(game_dir, library) == Some(
            game_dir + seq!["libraries"@],
        ),
        library.rules@.len() > 0 && library.rules@[0].os.name@ == "windows"@ ==> library_dir(
            game_dir,
            library,
        ) == Some(game_dir + seq!["natives"@, "windows"@]),
        library.rules@.len() > 0 && !natives_os(library.rules@[0].os.name@) ==> library_dir(
            game_dir,
            library,
        ) is None && library_tasks(game_dir, seq![library]).len() == 0,
{
    assert(game_dir.push("natives"@).push("windows"@) =~= game_dir + seq![
        "natives"@,
        "windows"@,
    ]);
    assert(seq![library].drop_last() =~= Seq::<Library>::empty());
    assert(library_tasks(game_dir, Seq::<Library>::empty()).len() == 0);
}

/// The size of an installation: one task for the asset index, one for each
/// asset object, one for each library that has a directory, one for the
/// client, eleven for the mod loader and fifteen for the mods.
pub proof fn lemma_plan_size(
    game_dir: Seq<Seq<char>>,
    version_file: VersionFile,
    asset_index: AssetIndex,
)
    ensures
        install_plan(game_dir, version_file, asset_index).len() == 1 + asset_index.objects@.len()
            + library_tasks(game_dir, version_file.libraries@).len() + 1 + fabric_lib_urls().len()
            + mod_urls().len(),
        fabric_lib_urls().len() == 11,
        mod_urls().len() == 15,
        (forall|i: int|
            0 <= i < version_file.libraries@.len() ==> library_dir(
                game_dir,
                #[trigger] version_file.libraries@[i],
            ) is Some) ==> library_tasks(game_dir, version_file.libraries@).len()
            == version_file.libraries@.len(),
{
    lemma_library_tasks(game_dir, version_file.libraries@);
}

} // verus!

//! The support libraries of the Fabric mod loader.

use vstd::prelude::*;
use vstd::string::*;
use crate::text::texts;

verus! {

/// The URLs of the libraries that the mod loader needs, in the order in
/// which they are queued.
pub open spec fn fabric_lib_urls() -> Seq<Seq<char>> {
    seq![
        "https://maven.fabricmc.net/net/fabricmc/tiny-mappings-parser/0.3.0+build.17/tiny-mappings-parser-0.3.0+build.17.jar"@,
        "https://maven.fabricmc.net/net/fabricmc/sponge-mixin/0.12.5+mixin.0.8.5/sponge-mixin-0.12.5+mixin.0.8.5.jar"@,
        "https://maven.fabricmc.net/net/fabricmc/tiny-remapper/0.8.2/tiny-remapper-0.8.2.jar"@,
        "https://maven.fabricmc.net/net/fabricmc/access-widener/2.1.0/access-widener-2.1.0.jar"@,
        "https://maven.fabricmc.net/org/ow2/asm/asm/9.5/asm-9.5.jar"@,
        "https://maven.fabricmc.net/org/ow2/asm/asm-analysis/9.5/asm-analysis-9.5.jar"@,
        "https://maven.fabricmc.net/org/ow2/asm/asm-commons/9.5/asm-commons-9.5.jar"@,
        "https://maven.fabricmc.net/org/ow2/asm/asm-tree/9.5/asm-tree-9.5.jar"@,
        "https://maven.fabricmc.net/org/ow2/asm/asm-util/9.5/asm-util-9.5.jar"@,
        "https://maven.fabricmc.net/net/fabricmc/intermediary/1.19.2/intermediary-1.19.2.jar"@,
        "https://maven.fabricmc.net/net/fabricmc/fabric-loader/0.14.21/fabric-loader-0.14.21.jar"@,
    ]
}

/// The URLs of the libraries that the mod loader needs.
pub fn get_fabric_libs() -> (libs: Vec<String>)
    ensures
        texts(libs@) == fabric_lib_urls(),
{
    let mut libs: Vec<String> = Vec::new();
    libs.push(
        String::from_str(
            "https://maven.fabricmc.net/net/fabricmc/tiny-mappings-parser/0.3.0+build.17/tiny-mappings-parser-0.3.0+build.17.jar",
        ),
    );
    libs.push(
        String::from_str(
            "https://maven.fabricmc.net/net/fabricmc/sponge-mixin/0.12.5+mixin.0.8.5/sponge-mixin-0.12.5+mixin.0.8.5.jar",
        ),
    );
    libs.push(
        String::from_str(
            "https://maven.fabricmc.net/net/fabricmc/tiny-remapper/0.8.2/tiny-remapper-0.8.2.jar",
        ),
    );
    libs.push(
        String::from_str(
            "https://maven.fabricmc.net/net/fabricmc/access-widener/2.1.0/access-widener-2.1.0.jar",
        ),
    );
    libs.push(String::from_str("https://maven.fabricmc.net/org/ow2/asm/asm/9.5/asm-9.5.jar"));
    libs.push(
        String::from_str(
            "https://maven.fabricmc.net/org/ow2/asm/asm-analysis/9.5/asm-analysis-9.5.jar",
        ),
    );
    libs.push(
        String::from_str(
            "https://maven.fabricmc.net/org/ow2/asm/asm-commons/9.5/asm-commons-9.5.jar",
        ),
    );
    libs.push(
        String::from_str("https://maven.fabricmc.net/org/ow2/asm/asm-tree/9.5/asm-tree-9.5.jar"),
    );
    libs.push(
        String::from_str("https://maven.fabricmc.net/org/ow2/asm/asm-util/9.5/asm-util-9.5.jar"),
    );
    libs.push(
        String::from_str(
            "https://maven.fabricmc.net/net/fabricmc/intermediary/1.19.2/intermediary-1.19.2.jar",
        ),
    );
    libs.push(
        String::from_str(
            "https://maven.fabricmc.net/net/fabricmc/fabric-loader/0.14.21/fabric-loader-0.14.21.jar",
        ),
    );
    libs
}

} // verus!

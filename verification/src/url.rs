//! Where a release archive is downloaded from.

use vstd::prelude::*;
use vstd::string::StringExecFns;
use crate::text::{chars_of, same_text};

verus! {

/// `label` with every dot replaced by an underscore.
pub open spec fn underscored(label: Seq<char>) -> Seq<char> {
    label.map_values(|c: char| if c == '.' { '_' } else { c })
}

/// The directory of the distribution that holds the archives of a release:
/// the version under the base, then the tag unless it is `stable`, then
/// `mono` for the Mono flavour.
pub open spec fn release_directory(
    base: Seq<char>,
    version: Seq<char>,
    tag: Seq<char>,
    mono: bool,
) -> Seq<char> {
    base + "/"@ + version + (if tag == "stable"@ { Seq::<char>::empty() } else { "/"@ + tag })
        + (if mono { "/mono"@ } else { Seq::<char>::empty() })
}

/// The name of a release archive, without its extension.
pub open spec fn archive_stem(
    version: Seq<char>,
    tag: Seq<char>,
    mono: bool,
    file_name: Seq<char>,
) -> Seq<char> {
    "Godot_v"@ + version + "-"@ + tag + (if mono {
        "_mono_"@ + underscored(file_name)
    } else {
        "_"@ + file_name
    })
}

/// The full location of a release archive.
pub open spec fn download_url(
    base: Seq<char>,
    version: Seq<char>,
    tag: Seq<char>,
    mono: bool,
    file_name: Seq<char>,
) -> Seq<char> {
    release_directory(base, version, tag, mono) + "/"@ + archive_stem(version, tag, mono, file_name)
        + ".zip"@
}

/// Copies `label`, writing an underscore for each dot.
pub fn replace_dots(label: &str) -> (out: String)
    ensures
        out@ == underscored(label@),
{
    let chars = chars_of(label);
    let n: usize = chars.len();
    let mut out = String::from_str("");
    proof {
        reveal_strlit("");
        reveal_strlit("_");
    }
    let mut i: usize = 0;
    while i < n
        invariant
            i <= n,
            n == label@.len(),
            chars@ == label@,
            "_"@ == seq!['_'],
            out@ == underscored(label@.subrange(0, i as int)),
        decreases n - i,
    {
        if chars[i] == '.' {
            out.append("_");
        } else {
            out.append(label.substring_char(i, i + 1));
        }
        i += 1;
        assert(out@ =~= underscored(label@.subrange(0, i as int)));
    }
    assert(label@.subrange(0, n as int) =~= label@);
    out
}

/// Builds the location of the archive of one variant of a release.
///
/// `file_name` is the variant's label, such as `linux_headless.64`.
pub fn get_download_url(base: &str, version: &str, tag: &str, mono: bool, file_name: &str) -> (url:
    String)
    ensures
        url@ == download_url(base@, version@, tag@, mono, file_name@),
{
    let mut url = String::from_str(base);
    url.append("/");
    url.append(version);
    let mut file = String::from_str("Godot_v");
    file.append(version);
    file.append("-");
    file.append(tag);
    if !same_text(tag, "stable") {
        url.append("/");
        url.append(tag);
    }
    if mono {
        url.append("/mono");
        file.append("_mono_");
        let label = replace_dots(file_name);
        file.append(label.as_str());
    } else {
        file.append("_");
        file.append(file_name);
    }
    assert(url@ =~= release_directory(base@, version@, tag@, mono));
    assert(file@ =~= archive_stem(version@, tag@, mono, file_name@));
    url.append("/");
    url.append(file.as_str());
    url.append(".zip");
    url
}

} // verus!

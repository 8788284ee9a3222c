//! Display descriptors for the stored files of a media item.
use vstd::prelude::*;
use crate::model::MediaFile;
use crate::text::{int_text, push_int};

verus! {

/// One playable version of a media item.
#[derive(Clone, Debug, PartialEq, Eq)]
pub struct Version {
    pub id: i32,
    pub file: String,
    pub display_name: String,
}

/// The text of an optional field, or `fallback` when it is absent.
pub open spec fn or_text(o: Option<String>, fallback: Seq<char>) -> Seq<char> {
    match o {
        Some(s) => s@,
        None => fallback,
    }
}

/// `"<codec> - <audio> - <resolution> - Library <library_id>"`, each absent
/// part replaced by its "Unknown" word.
pub open spec fn display_name_of(f: MediaFile) -> Seq<char> {
    or_text(f.codec, "Unknown VC"@) + " - "@ + or_text(f.audio, "Unknown AC"@) + " - "@
        + or_text(f.original_resolution, "Unknown res"@) + " - Library "@ + int_text(
        f.library_id as int,
    )
}

/// `v` describes the file `f`.
pub open spec fn version_of(v: Version, f: MediaFile) -> bool {
    &&& v.id == f.id
    &&& v.file@ == f.target_file@
    &&& v.display_name@ == display_name_of(f)
}

/// `vs` describes `files`, one entry per file, in the same order.
pub open spec fn versions_of(vs: Seq<Version>, files: Seq<MediaFile>) -> bool {
    &&& vs.len() == files.len()
    &&& forall|i: int| 0 <= i < vs.len() ==> #[trigger] version_of(vs[i], files[i])
}

fn push_or(s: &mut String, o: &Option<String>, fallback: &str)
    ensures
        final(s)@ == old(s)@ + or_text(*o, fallback@),
{
    match o {
        Some(t) => s.append(t.as_str()),
        None => s.append(fallback),
    }
}

/// The display name of one file.
pub fn display_name(f: &MediaFile) -> (r: String)
    ensures
        r@ == display_name_of(*f),
{
    let mut s = String::new();
    push_or(&mut s, &f.codec, "Unknown VC");
    s.append(" - ");
    push_or(&mut s, &f.audio, "Unknown AC");
    s.append(" - ");
    push_or(&mut s, &f.original_resolution, "Unknown res");
    s.append(" - Library ");
    push_int(&mut s, f.library_id as i128);
    proof {
        assert(s@ =~= display_name_of(*f));
    }
    s
}

/// One version per file, in storage order.
pub fn list_versions(files: &Vec<MediaFile>) -> (r: Vec<Version>)
    ensures
        versions_of(r@, files@),
{
    let mut out: Vec<Version> = Vec::new();
    let mut i: usize = 0;
    while i < files.len()
        invariant
            i <= files.len(),
            versions_of(out@, files@.take(i as int)),
        decreases files.len() - i,
    {
        let f = &files[i];
        let v = Version { id: f.id, file: f.target_file.clone(), display_name: display_name(f) };
        out.push(v);
        i = i + 1;
        proof {
            assert forall|j: int| 0 <= j < out@.len() implies #[trigger] version_of(
                out@[j],
                files@.take(i as int)[j],
            ) by {
                assert(files@.take(i as int)[j] == files@[j]);
                if j < i - 1 {
                    assert(files@.take(i - 1)[j] == files@[j]);
                }
            }
        }
    }
    proof {
        assert(files@.take(i as int) =~= files@);
    }
    out
}

} // verus!

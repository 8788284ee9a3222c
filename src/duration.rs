//! Duration summaries: minutes of a playable item, episodes and hours of a show.
use vstd::prelude::*;
use crate::model::{CatalogError, MediaFile, MediaType};
use crate::text::{int_text, push_int, push_decimal, decimal};

verus! {

/// Division that rounds toward zero, as integer division does at run time.
pub open spec fn trunc_div(a: int, d: int) -> int {
    if a >= 0 {
        a / d
    } else {
        -((-a) / d)
    }
}

/// The duration of the last file in storage order, `0` when there is no
/// file or it was never probed.
pub open spec fn last_duration(files: Seq<MediaFile>) -> int {
    if files.len() == 0 {
        0
    } else {
        match files.last().duration {
            Some(d) => d as int,
            None => 0,
        }
    }
}

/// The duration that a file lookup yields; a failed lookup counts as `0`.
pub open spec fn files_duration(files: Result<Vec<MediaFile>, CatalogError>) -> int {
    match files {
        Ok(v) => last_duration(v@),
        Err(_) => 0,
    }
}

/// Total seconds of a show: each episode's last probed file, summed.
pub open spec fn show_seconds(episodes: Seq<Result<Vec<MediaFile>, CatalogError>>) -> int
    decreases episodes.len(),
{
    if episodes.len() == 0 {
        0
    } else {
        show_seconds(episodes.drop_last()) + files_duration(episodes.last())
    }
}

/// `"<N> min"`, with `N` the whole minutes of `seconds`.
pub open spec fn minutes_text(seconds: int) -> Seq<char> {
    int_text(trunc_div(seconds, 60)) + " min"@
}

/// `"<count> episodes | <H> hr"`, with `H` the whole hours of `seconds`.
pub open spec fn episodes_text(count: nat, seconds: int) -> Seq<char> {
    decimal(count) + " episodes | "@ + int_text(trunc_div(seconds, 3600)) + " hr"@
}

/// The display duration of an item: episodes and hours for a show, minutes
/// of `duration` for anything else.
pub open spec fn duration_pretty_of(
    kind: Option<MediaType>,
    duration: int,
    episodes: Seq<Result<Vec<MediaFile>, CatalogError>>,
) -> Seq<char> {
    match kind {
        Some(MediaType::Tv) => episodes_text(episodes.len(), show_seconds(episodes)),
        _ => minutes_text(duration),
    }
}

/// The duration of the last file of a media item, `0` when the lookup failed,
/// found no file, or the file was never probed.
pub fn media_duration(files: &Result<Vec<MediaFile>, CatalogError>) -> (r: i32)
    ensures
        r as int == files_duration(*files),
{
    match files {
        Ok(v) => {
            if v.len() == 0 {
                0
            } else {
                match v[v.len() - 1].duration {
                    Some(d) => d,
                    None => 0,
                }
            }
        },
        Err(_) => 0,
    }
}

/// Sum of the last-file durations of a show's episodes, one file lookup per
/// episode; failed lookups, empty ones and unprobed files add nothing.
pub fn show_total_seconds(episodes: &Vec<Result<Vec<MediaFile>, CatalogError>>) -> (r: i128)
    ensures
        r as int == show_seconds(episodes@),
        -(episodes.len() as int) * 2147483648 <= r <= (episodes.len() as int) * 2147483648,
{
    let mut total: i128 = 0;
    let mut i: usize = 0;
    while i < episodes.len()
        invariant
            i <= episodes.len(),
            total as int == show_seconds(episodes@.take(i as int)),
            -(i as int) * 2147483648 <= total <= (i as int) * 2147483648,
        decreases episodes.len() - i,
    {
        let d = media_duration(&episodes[i]);
        proof {
            assert(episodes@.take(i + 1).drop_last() =~= episodes@.take(i as int));
        }
        total = total + d as i128;
        i = i + 1;
    }
    proof {
        assert(episodes@.take(i as int) =~= episodes@);
    }
    total
}

fn trunc_div_exec(a: i128, d: i128) -> (r: i128)
    requires
        d > 0,
        -170141183460469231731687303715884105727 <= a,
    ensures
        r as int == trunc_div(a as int, d as int),
{
    if a >= 0 {
        a / d
    } else {
        let q = (-a) / d;
        -q
    }
}

/// The display duration: `"<N> min"` for a movie, an episode or an item of
/// unknown type, from its last file's `duration`; for a show,
/// `"<count> episodes | <H> hr"` over one file lookup per episode.
pub fn duration_pretty(
    kind: Option<MediaType>,
    duration: i32,
    episodes: &Vec<Result<Vec<MediaFile>, CatalogError>>,
) -> (r: String)
    ensures
        r@ == duration_pretty_of(kind, duration as int, episodes@),
{
    let mut s = String::new();
    match kind {
        Some(MediaType::Tv) => {
            push_decimal(&mut s, episodes.len() as u128);
            s.append(" episodes | ");
            let total = show_total_seconds(episodes);
            push_int(&mut s, trunc_div_exec(total, 3600));
            s.append(" hr");
        },
        _ => {
            push_int(&mut s, trunc_div_exec(duration as i128, 60));
            s.append(" min");
        },
    }
    proof {
        assert(s@ =~= duration_pretty_of(kind, duration as int, episodes@));
    }
    s
}

/// A movie, an episode or an item of unknown type without files, or whose
/// file lookup failed, has duration `0`, displayed as `"0 min"`.
pub proof fn lemma_no_files_zero_minutes(
    kind: Option<MediaType>,
    files: Result<Vec<MediaFile>, CatalogError>,
    episodes: Seq<Result<Vec<MediaFile>, CatalogError>>,
)
    requires
        kind != Some(MediaType::Tv),
        files is Ok ==> files->Ok_0@.len() == 0,
    ensures
        files_duration(files) == 0,
        duration_pretty_of(kind, files_duration(files), episodes) == "0 min"@,
{
    reveal_strlit("0 min");
    reveal_strlit(" min");
    assert(decimal(0) == seq!['0']);
    assert(duration_pretty_of(kind, 0, episodes) =~= "0 min"@);
}

/// The display duration of a show opens with the number of episode lookups,
/// whether or not any of them found a probed file: two shows with as many
/// episodes show the same count.
pub proof fn lemma_episode_count(
    duration: int,
    episodes: Seq<Result<Vec<MediaFile>, CatalogError>>,
    others: Seq<Result<Vec<MediaFile>, CatalogError>>,
)
    requires
        others.len() == episodes.len(),
    ensures
        duration_pretty_of(Some(MediaType::Tv), duration, episodes).subrange(
            0,
            decimal(episodes.len()).len() as int,
        ) == decimal(episodes.len()),
        duration_pretty_of(Some(MediaType::Tv), duration, episodes).subrange(
            0,
            (decimal(episodes.len()).len() + " episodes | "@.len()) as int,
        ) == duration_pretty_of(Some(MediaType::Tv), duration, others).subrange(
            0,
            (decimal(episodes.len()).len() + " episodes | "@.len()) as int,
        ),
{
    let n = decimal(episodes.len());
    let head = n + " episodes | "@;
    let a = duration_pretty_of(Some(MediaType::Tv), duration, episodes);
    let b = duration_pretty_of(Some(MediaType::Tv), duration, others);
    assert(a.subrange(0, n.len() as int) =~= n);
    assert(a.subrange(0, head.len() as int) =~= head);
    assert(b.subrange(0, head.len() as int) =~= head);
}

} // verus!

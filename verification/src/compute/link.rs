//! Which of the tensor runtime's static libraries to link, and in what order.
//!
//! The libraries are discovered rather than listed: the native build decides
//! which backends to produce from the platform and the features, so a fixed
//! list goes stale the moment a backend is added. Whatever directory listing
//! the build found is handed in as file names; this picks the runtime's
//! archives out of it and orders them so that dependants come before their
//! dependencies. Every backend registers itself with `ggml-base`, so base has
//! to resolve last.
use crate::text::same_text;
use vstd::prelude::*;

verus! {

/// The library a file name is the static archive of: `lib{stem}.a`, where
/// the stem names one of the runtime's libraries (it starts with `ggml`).
pub open spec fn lib_stem(name: Seq<char>) -> Option<Seq<char>> {
    if name.len() >= 5 && name.subrange(0, 3) == seq!['l', 'i', 'b'] && name.subrange(
        name.len() - 2,
        name.len() as int,
    ) == seq!['.', 'a'] {
        let stem = name.subrange(3, name.len() - 2);
        if stem.len() >= 4 && stem.subrange(0, 4) == seq!['g', 'g', 'm', 'l'] {
            Some(stem)
        } else {
            None
        }
    } else {
        None
    }
}

/// Where a library goes in the link order: the umbrella library first, the
/// base every backend registers with last, the backends between.
pub open spec fn link_rank(stem: Seq<char>) -> int {
    if stem == "ggml"@ {
        0
    } else if stem == "ggml-base"@ {
        2
    } else {
        1
    }
}

/// The libraries among `names` of link rank `rank`, in listing order.
pub open spec fn stems_ranked(names: Seq<Seq<char>>, rank: int) -> Seq<Seq<char>>
    decreases names.len(),
{
    if names.len() == 0 {
        Seq::empty()
    } else {
        let earlier = stems_ranked(names.drop_last(), rank);
        match lib_stem(names.last()) {
            Some(stem) => if link_rank(stem) == rank {
                earlier.push(stem)
            } else {
                earlier
            },
            None => earlier,
        }
    }
}

/// The libraries among `names`, ordered by rank and, within a rank, as
/// listed: what a stable sort by rank gives.
pub open spec fn link_sequence(names: Seq<Seq<char>>) -> Seq<Seq<char>> {
    stems_ranked(names, 0) + stems_ranked(names, 1) + stems_ranked(names, 2)
}

/// The text of each string.
pub open spec fn texts(strings: Seq<String>) -> Seq<Seq<char>> {
    strings.map_values(|s: String| s@)
}

/// The library `name` is the static archive of, if it is one of the
/// runtime's.
fn archive_stem(name: &str) -> (stem: Option<String>)
    ensures
        stem matches Some(s) ==> lib_stem(name@) == Some(s@),
        stem is None ==> lib_stem(name@) is None,
{
    let n = name.unicode_len();
    if n < 5 {
        return None;
    }
    if name.get_char(0) != 'l' || name.get_char(1) != 'i' || name.get_char(2) != 'b' {
        assert(name@.subrange(0, 3)[0] == name@[0]);
        assert(name@.subrange(0, 3)[1] == name@[1]);
        assert(name@.subrange(0, 3)[2] == name@[2]);
        return None;
    }
    assert(name@.subrange(0, 3) =~= seq!['l', 'i', 'b']);
    if name.get_char(n - 2) != '.' || name.get_char(n - 1) != 'a' {
        assert(name@.subrange(n - 2, n as int)[0] == name@[n - 2]);
        assert(name@.subrange(n - 2, n as int)[1] == name@[n - 1]);
        return None;
    }
    assert(name@.subrange(n - 2, n as int) =~= seq!['.', 'a']);
    let stem = name.substring_char(3, n - 2);
    if stem.unicode_len() < 4 {
        return None;
    }
    if stem.get_char(0) != 'g' || stem.get_char(1) != 'g' || stem.get_char(2) != 'm'
        || stem.get_char(3) != 'l' {
        assert(stem@.subrange(0, 4)[0] == stem@[0]);
        assert(stem@.subrange(0, 4)[1] == stem@[1]);
        assert(stem@.subrange(0, 4)[2] == stem@[2]);
        assert(stem@.subrange(0, 4)[3] == stem@[3]);
        return None;
    }
    assert(stem@.subrange(0, 4) =~= seq!['g', 'g', 'm', 'l']);
    Some(String::from_str(stem))
}

/// The link rank of a library.
fn rank_of(stem: &str) -> (rank: u8)
    ensures
        rank == link_rank(stem@),
{
    if same_text(stem, "ggml") {
        0
    } else if same_text(stem, "ggml-base") {
        2
    } else {
        1
    }
}

/// The runtime's static libraries among `file_names` — the stems of the
/// names of the form `lib{stem}.a` whose stem starts with `ggml` — ordered
/// for the linker: `ggml` first, `ggml-base` last, every other in between,
/// each group in listing order.
pub fn link_order(file_names: &Vec<String>) -> (libs: Vec<String>)
    ensures
        texts(libs@) == link_sequence(texts(file_names@)),
{
    let ghost names = texts(file_names@);
    let mut first: Vec<String> = Vec::new();
    let mut middle: Vec<String> = Vec::new();
    let mut last: Vec<String> = Vec::new();
    let n = file_names.len();
    let mut i: usize = 0;
    while i < n
        invariant
            n == file_names@.len(),
            names == texts(file_names@),
            i <= n,
            texts(first@) == stems_ranked(names.take(i as int), 0),
            texts(middle@) == stems_ranked(names.take(i as int), 1),
            texts(last@) == stems_ranked(names.take(i as int), 2),
        decreases n - i,
    {
        let ghost before = names.take(i as int);
        let ghost after = names.take(i + 1);
        assert(after.drop_last() =~= before);
        assert(after.last() == file_names@[i as int]@);
        match archive_stem(file_names[i].as_str()) {
            Some(stem) => {
                let rank = rank_of(stem.as_str());
                let ghost text = stem@;
                if rank == 0 {
                    first.push(stem);
                    assert(texts(first@) =~= stems_ranked(before, 0).push(text));
                } else if rank == 2 {
                    last.push(stem);
                    assert(texts(last@) =~= stems_ranked(before, 2).push(text));
                } else {
                    middle.push(stem);
                    assert(texts(middle@) =~= stems_ranked(before, 1).push(text));
                }
            },
            None => {},
        }
        i = i + 1;
    }
    assert(names.take(n as int) =~= names);
    let ghost a = first@;
    let ghost b = middle@;
    let ghost c = last@;
    let mut libs = first;
    libs.append(&mut middle);
    libs.append(&mut last);
    assert(libs@ =~= a + b + c);
    assert(texts(libs@) =~= texts(a) + texts(b) + texts(c));
    libs
}

/// Only the umbrella library links first and only the base links last:
/// every other library, backends whose names merely begin like the base's
/// included, links between them.
pub proof fn only_the_base_links_last(stem: Seq<char>)
    ensures
        link_rank(stem) == 0 <==> stem == "ggml"@,
        link_rank(stem) == 2 <==> stem == "ggml-base"@,
        link_rank(stem) == 1 <==> stem != "ggml"@ && stem != "ggml-base"@,
{
    reveal_strlit("ggml");
    reveal_strlit("ggml-base");
    assert("ggml"@ != "ggml-base"@) by {
        assert("ggml"@.len() != "ggml-base"@.len());
    }
}

/// What each group of the link order holds: the umbrella library, then
/// libraries that are neither it nor the base, then the base; and each is
/// the stem of a listed archive.
pub proof fn link_groups_hold_their_libraries(names: Seq<Seq<char>>)
    ensures
        forall|i: int|
            0 <= i < stems_ranked(names, 0).len() ==> #[trigger] stems_ranked(names, 0)[i]
                == "ggml"@,
        forall|i: int|
            0 <= i < stems_ranked(names, 1).len() ==> #[trigger] stems_ranked(names, 1)[i]
                != "ggml"@ && stems_ranked(names, 1)[i] != "ggml-base"@,
        forall|i: int|
            0 <= i < stems_ranked(names, 2).len() ==> #[trigger] stems_ranked(names, 2)[i]
                == "ggml-base"@,
        forall|r: int, i: int|
            0 <= i < stems_ranked(names, r).len() ==> exists|j: int|
                0 <= j < names.len() && lib_stem(#[trigger] names[j]) == Some(
                    #[trigger] stems_ranked(names, r)[i],
                ),
    decreases names.len(),
{
    if names.len() > 0 {
        let rest = names.drop_last();
        link_groups_hold_their_libraries(rest);
        match lib_stem(names.last()) {
            Some(stem) => only_the_base_links_last(stem),
            None => {},
        }
        assert forall|r: int, i: int|
            0 <= i < stems_ranked(names, r).len() implies #[trigger] stems_ranked(names, r)[i]
            == stems_ranked(rest, r)[i] || (i == stems_ranked(rest, r).len() && lib_stem(
            names.last(),
        ) == Some(stems_ranked(names, r)[i]) && link_rank(stems_ranked(names, r)[i]) == r) by {}
        assert forall|i: int| 0 <= i < stems_ranked(names, 0).len() implies #[trigger] stems_ranked(
            names,
            0,
        )[i] == "ggml"@ by {
            if i < stems_ranked(rest, 0).len() {
                assert(stems_ranked(rest, 0)[i] == "ggml"@);
            }
        }
        assert forall|i: int| 0 <= i < stems_ranked(names, 1).len() implies #[trigger] stems_ranked(
            names,
            1,
        )[i] != "ggml"@ && stems_ranked(names, 1)[i] != "ggml-base"@ by {
            if i < stems_ranked(rest, 1).len() {
                assert(stems_ranked(rest, 1)[i] != "ggml"@);
            }
        }
        assert forall|r: int, i: int|
            0 <= i < stems_ranked(names, r).len() implies exists|j: int|
                0 <= j < names.len() && lib_stem(#[trigger] names[j]) == Some(
                    #[trigger] stems_ranked(names, r)[i],
                ) by {
            if i < stems_ranked(rest, r).len() {
                let j = choose|j: int|
                    0 <= j < rest.len() && lib_stem(#[trigger] rest[j]) == Some(
                        stems_ranked(rest, r)[i],
                    );
                assert(names[j] == rest[j]);
            } else {
                assert(names[names.len() - 1] == names.last());
            }
        }
    }
}

} // verus!

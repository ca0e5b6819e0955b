use vstd::prelude::*;
use vstd::string::StrSliceExecFns;

verus! {

/// The width a group of words takes when rendered with a delimiter of width
/// `d` between adjacent words: the sum of the word widths plus one delimiter
/// per gap.
pub open spec fn rendered_width(g: Seq<&str>, d: nat) -> nat
    decreases g.len(),
{
    if g.len() == 0 {
        0
    } else if g.len() == 1 {
        g[0]@.len()
    } else {
        rendered_width(g.drop_last(), d) + d + g.last()@.len()
    }
}

/// A group respects the width budget unless it is a single word that alone
/// exceeds it (such a word is placed alone rather than dropped).
pub open spec fn group_fits(g: Seq<&str>, width: nat, d: nat) -> bool {
    rendered_width(g, d) <= width || (g.len() == 1 && g[0]@.len() > width)
}

/// One step of the greedy pass: the next word starts a new group exactly
/// when the current group is non-empty and would overflow the budget with
/// the word appended; otherwise it joins the current group.  The state is
/// the finished groups, the open group, and the open group's width.
pub open spec fn spec_pack_step(
    st: (Seq<Seq<Seq<char>>>, Seq<Seq<char>>, int),
    w: Seq<char>,
    width: int,
    d: int,
) -> (Seq<Seq<Seq<char>>>, Seq<Seq<char>>, int) {
    let (groups, cur, len) = st;
    if cur.len() > 0 && len + d + w.len() > width {
        (groups.push(cur), seq![w], w.len() as int)
    } else if cur.len() == 0 {
        (groups, seq![w], w.len() as int)
    } else {
        (groups, cur.push(w), len + d + w.len())
    }
}

/// The state of the greedy pass after all the given words.
pub open spec fn spec_pack_state(words: Seq<Seq<char>>, width: int, d: int) -> (
    Seq<Seq<Seq<char>>>,
    Seq<Seq<char>>,
    int,
) {
    words.fold_left(
        (Seq::<Seq<Seq<char>>>::empty(), Seq::<Seq<char>>::empty(), 0int),
        |st: (Seq<Seq<Seq<char>>>, Seq<Seq<char>>, int), w: Seq<char>|
            spec_pack_step(st, w, width, d),
    )
}

/// The groups the greedy single pass produces, the still-open final group
/// included.
pub open spec fn spec_pack(words: Seq<Seq<char>>, width: int, d: int) -> Seq<Seq<Seq<char>>> {
    let st = spec_pack_state(words, width, d);
    st.0.push(st.1)
}

/// Greedy single-pass grouping of words into lines of at most `width`
/// columns, counting `delimiter` once between adjacent words of a group.
/// A new group starts whenever the next word no longer fits; a word wider
/// than the whole budget stands alone.  Order is preserved and nothing is
/// dropped.
pub fn group_strs_to_fit_width<'a>(
    words: &Vec<&'a str>,
    width: usize,
    delimiter: &str,
) -> (groups: Vec<Vec<&'a str>>)
    ensures
        groups@.map_values(|g: Vec<&'a str>| g@).flatten() == words@,
        groups@.map_values(|g: Vec<&'a str>| g@.map_values(|p: &str| p@)) == spec_pack(
            words@.map_values(|p: &str| p@),
            width as int,
            delimiter@.len() as int,
        ),
        forall|i: int|
            0 <= i < groups@.len() ==> group_fits(
                #[trigger] groups@[i]@,
                width as nat,
                delimiter@.len(),
            ),
        groups@.len() >= 1,
        words@.len() > 0 ==> forall|i: int| 0 <= i < groups@.len() ==> #[trigger] groups@[i]@.len() >= 1,
{
    let d = delimiter.unicode_len();
    let ghost views = words@.map_values(|p: &str| p@);
    let mut groups: Vec<Vec<&'a str>> = Vec::new();
    let mut current_group: Vec<&'a str> = Vec::new();
    let mut current_length: usize = 0;
    let mut i: usize = 0;
    while i < words.len()
        invariant
            i <= words.len(),
            d == delimiter@.len(),
            views == words@.map_values(|p: &str| p@),
            (
                groups@.map_values(|g: Vec<&'a str>| g@.map_values(|p: &str| p@)),
                current_group@.map_values(|p: &str| p@),
                current_length as int,
            ) == spec_pack_state(views.take(i as int), width as int, d as int),
            current_group@.len() == 0 ==> current_length == 0,
            current_group@.len() >= 1 ==> current_length == rendered_width(
                current_group@,
                d as nat,
            ),
            current_group@.len() >= 2 ==> current_length <= width,
            i > 0 ==> current_group@.len() >= 1,
            i == 0 ==> current_group@.len() == 0 && groups@.len() == 0,
            forall|j: int|
                0 <= j < groups@.len() ==> group_fits(#[trigger] groups@[j]@, width as nat, d as nat),
            forall|j: int| 0 <= j < groups@.len() ==> #[trigger] groups@[j]@.len() >= 1,
            groups@.map_values(|g: Vec<&'a str>| g@).flatten() + current_group@ == words@.take(
                i as int,
            ),
        decreases words.len() - i,
    {
        let word = words[i];
        let wl = word.unicode_len();
        proof {
            let t1 = views.take(i + 1);
            assert(t1.drop_last() =~= views.take(i as int));
            assert(t1.last() == views[i as int]);
        }
        let breaks = if current_group.len() == 0 {
            false
        } else if current_length > width {
            true
        } else if d > width - current_length {
            true
        } else {
            wl > width - current_length - d
        };
        if breaks {
            proof {
                Seq::lemma_flatten_push(
                    groups@.map_values(|g: Vec<&'a str>| g@),
                    current_group@,
                );
                assert(groups@.push(current_group).map_values(|g: Vec<&'a str>| g@)
                    =~= groups@.map_values(|g: Vec<&'a str>| g@).push(current_group@));
                assert(groups@.push(current_group).map_values(
                    |g: Vec<&'a str>| g@.map_values(|p: &str| p@),
                ) =~= groups@.map_values(|g: Vec<&'a str>| g@.map_values(|p: &str| p@)).push(
                    current_group@.map_values(|p: &str| p@),
                ));
            }
            groups.push(current_group);
            current_group = Vec::new();
            current_length = wl;
        } else {
            if current_group.len() == 0 {
                current_length = wl;
            } else {
                current_length = current_length + d + wl;
            }
        }
        proof {
            assert(current_group@.push(word).drop_last() =~= current_group@);
            assert(current_group@.push(word).map_values(|p: &str| p@) =~= current_group@
                .map_values(|p: &str| p@).push(word@));
        }
        current_group.push(word);
        proof {
            assert(words@.take(i + 1 as int) =~= words@.take(i as int).push(words@[i as int]));
        }
        i = i + 1;
    }
    proof {
        Seq::lemma_flatten_push(groups@.map_values(|g: Vec<&'a str>| g@), current_group@);
        assert(groups@.push(current_group).map_values(|g: Vec<&'a str>| g@)
            =~= groups@.map_values(|g: Vec<&'a str>| g@).push(current_group@));
        assert(groups@.push(current_group).map_values(
            |g: Vec<&'a str>| g@.map_values(|p: &str| p@),
        ) =~= groups@.map_values(|g: Vec<&'a str>| g@.map_values(|p: &str| p@)).push(
            current_group@.map_values(|p: &str| p@),
        ));
        assert(words@.take(words@.len() as int) =~= words@);
        assert(views.take(views.len() as int) =~= views);
    }
    groups.push(current_group);
    groups
}

} // verus!

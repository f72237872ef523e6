//! The skin commands: checking uploads, naming new skin folders, listing and
//! picking skins.

use vstd::prelude::*;

use crate::text::{
    ascii_lower_seq, chars_eq, chars_of, decimal, push_decimal, push_str, replace, replace_all,
    split_last, split_pieces, str_eq, to_ascii_lowercase, views,
};

verus! {

/// The skinlist command.
#[derive(Clone, Copy, Debug)]
pub struct SkinList;

// ---------------------------------------------------------------------------
// File names.

/// Whether the last `.`-separated piece of `filename` is `ext`, as
/// `filename.split('.').last() == Some(ext)`.
pub open spec fn has_extension(filename: Seq<char>, ext: Seq<char>) -> bool {
    split_pieces(filename, '.').last() == ext
}

/// Whether a file name ends in the extension `ext` (after its last `.`; a
/// name without `.` is its own last piece).
pub fn file_has_extension(filename: &str, ext: &str) -> (r: bool)
    ensures
        r == has_extension(filename@, ext@),
{
    let last = split_last(filename, '.');
    str_eq(last.as_str(), ext)
}

/// A folder name that counts up when taken: `base`, then `base_1`, `base_2`, ...
pub struct FileCounter<'s> {
    base: &'s str,
    count: usize,
}

/// The name for a base and a count: the base alone for 0, else `base_count`.
pub open spec fn counted_name(base: Seq<char>, count: nat) -> Seq<char> {
    if count == 0 {
        base
    } else {
        base + "_"@ + decimal(count)
    }
}

impl<'s> FileCounter<'s> {
    pub closed spec fn base_view(&self) -> Seq<char> {
        self.base@
    }

    pub closed spec fn count_view(&self) -> nat {
        self.count as nat
    }

    /// A counter at 0 for `base`.
    pub fn new(base: &'s str) -> (r: Self)
        ensures
            r.base_view() == base@,
            r.count_view() == 0,
    {
        Self { base, count: 0 }
    }

    /// Counts one up.
    pub fn inc(&mut self)
        requires
            old(self).count_view() < usize::MAX,
        ensures
            final(self).base_view() == old(self).base_view(),
            final(self).count_view() == old(self).count_view() + 1,
    {
        self.count += 1;
    }

    /// The current name.
    pub fn to_string(&self) -> (r: String)
        ensures
            r@ == counted_name(self.base_view(), self.count_view()),
    {
        let mut s = String::new();
        push_str(&mut s, self.base);
        if self.count != 0 {
            push_str(&mut s, "_");
            push_decimal(&mut s, self.count as u64);
            proof {
                reveal_strlit("_");
            }
            assert(s@ =~= counted_name(self.base_view(), self.count_view()));
        } else {
            assert(s@ =~= self.base@);
        }
        s
    }
}

/// What to do next while looking for a free folder name.
pub enum SkinNameStep {
    /// The name is free: use it.
    Use(String),
    /// The name is taken: try the next one.
    TryNext,
}

/// One step of the search for a free skin folder: given whether the
/// counter's current name is taken, use it or count up.
pub fn skin_name_step(counter: &mut FileCounter, taken: bool) -> (r: SkinNameStep)
    requires
        old(counter).count_view() < usize::MAX,
    ensures
        final(counter).base_view() == old(counter).base_view(),
        !taken ==> (r matches SkinNameStep::Use(name) && name@ == counted_name(
            old(counter).base_view(),
            old(counter).count_view(),
        ) && final(counter).count_view() == old(counter).count_view()),
        taken ==> (r is TryNext && final(counter).count_view() == old(counter).count_view() + 1),
{
    if !taken {
        SkinNameStep::Use(counter.to_string())
    } else {
        counter.inc();
        SkinNameStep::TryNext
    }
}

// ---------------------------------------------------------------------------
// Listing.

/// The display name of a skin folder: underscores as spaces.
pub open spec fn skin_display_name(name: Seq<char>) -> Seq<char> {
    replace_all(name, "_"@, " "@)
}

/// The display names of skin folders, in order.
pub fn skin_display_names(names: &Vec<String>) -> (r: Vec<String>)
    ensures
        r@.len() == names@.len(),
        forall|i: int| 0 <= i < names@.len() ==> #[trigger] r@[i]@ == skin_display_name(names@[i]@),
{
    let mut out: Vec<String> = Vec::new();
    let n = names.len();
    for i in 0..n
        invariant
            n == names@.len(),
            out@.len() == i,
            forall|j: int| 0 <= j < i ==> #[trigger] out@[j]@ == skin_display_name(names@[j]@),
    {
        proof {
            reveal_strlit("_");
        }
        out.push(replace(names[i].as_str(), "_", " "));
    }
    out
}

/// One line of the prefix skin list: `index) display name` and a newline.
pub open spec fn skin_list_line(index: nat, name: Seq<char>) -> Seq<char> {
    decimal(index) + ") "@ + skin_display_name(name) + "\n"@
}

/// The lines for `names`, numbered from 1.
pub open spec fn skin_list_lines(names: Seq<Seq<char>>) -> Seq<char>
    decreases names.len(),
{
    if names.len() == 0 {
        Seq::<char>::empty()
    } else {
        skin_list_lines(names.drop_last()) + skin_list_line(names.len(), names.last())
    }
}

/// The text of the prefix skin list.
pub fn skin_list_text(names: &Vec<String>) -> (r: String)
    requires
        names@.len() < u64::MAX,
    ensures
        r@ == skin_list_lines(views(names@)),
{
    let mut out = String::new();
    let n = names.len();
    for i in 0..n
        invariant
            n == names@.len(),
            n < u64::MAX,
            out@ == skin_list_lines(views(names@.subrange(0, i as int))),
    {
        let ghost pre = views(names@.subrange(0, i + 1));
        assert(pre.drop_last() =~= views(names@.subrange(0, i as int)));
        proof {
            reveal_strlit("_");
            reveal_strlit(") ");
            reveal_strlit("\n");
        }
        let ghost o = out@;
        push_decimal(&mut out, (i as u64) + 1);
        push_str(&mut out, ") ");
        let shown = replace(names[i].as_str(), "_", " ");
        push_str(&mut out, shown.as_str());
        push_str(&mut out, "\n");
        assert(out@ =~= o + skin_list_line((i + 1) as nat, names@[i as int]@));
    }
    assert(names@.subrange(0, n as int) =~= names@);
    out
}

// ---------------------------------------------------------------------------
// Ordering and searching names.

/// Lexicographic order on character sequences (for UTF-8 strings the same
/// as the byte order in which `String`s compare).
pub open spec fn seq_lt(a: Seq<char>, b: Seq<char>) -> bool
    decreases a.len(),
{
    if a.len() == 0 {
        b.len() > 0
    } else if b.len() == 0 {
        false
    } else if a[0] != b[0] {
        a[0] < b[0]
    } else {
        seq_lt(a.drop_first(), b.drop_first())
    }
}

/// Whether the names are in non-decreasing order.
pub open spec fn sorted_names(v: Seq<Seq<char>>) -> bool {
    forall|i: int, j: int| 0 <= i < j < v.len() ==> !seq_lt(#[trigger] v[j], #[trigger] v[i])
}

/// Whether the names are in non-decreasing order of their ASCII lowercase.
pub open spec fn sorted_by_lowercase(v: Seq<Seq<char>>) -> bool {
    forall|i: int, j: int|
        0 <= i < j < v.len() ==> !seq_lt(ascii_lower_seq(#[trigger] v[j]), ascii_lower_seq(#[trigger] v[i]))
}

/// Sorts strings in place (`slice::sort_unstable`): the same strings, in
/// non-decreasing order.
#[verifier::external_body]
fn sort_strings(v: &mut Vec<String>)
    ensures
        views(final(v)@).to_multiset() == views(old(v)@).to_multiset(),
        final(v)@.len() == old(v)@.len(),
        sorted_names(views(final(v)@)),
{
    v.sort_unstable();
}

/// Sorts strings in place by their ASCII lowercase
/// (`slice::sort_unstable_by_key`): the same strings, in non-decreasing order
/// of their lowercase; strings with equal lowercase in either order.
#[verifier::external_body]
fn sort_strings_by_lowercase(v: &mut Vec<String>)
    ensures
        views(final(v)@).to_multiset() == views(old(v)@).to_multiset(),
        final(v)@.len() == old(v)@.len(),
        sorted_by_lowercase(views(final(v)@)),
{
    v.sort_unstable_by_key(|s| to_ascii_lowercase(s.as_str()));
}

/// Searches sorted names for `needle` (`slice::binary_search`). When the
/// names are sorted, `Ok` holds an index of `needle` and `Err` the index at
/// which `needle` would be inserted to keep them sorted.
#[verifier::external_body]
fn binary_search_names(v: &Vec<String>, needle: &String) -> (r: Result<usize, usize>)
    ensures
        sorted_names(views(v@)) ==> match r {
            Ok(i) => i < v@.len() && v@[i as int]@ == needle@,
            Err(i) => i <= v@.len() && (forall|j: int| 0 <= j < i ==> seq_lt(v@[j]@, needle@)) && (
            forall|j: int| i <= j < v@.len() ==> seq_lt(needle@, v@[j]@)),
        },
{
    v.binary_search(needle)
}

/// The skin folder names sorted as the settings command numbers them.
pub fn sorted_skin_names(names: Vec<String>) -> (r: Vec<String>)
    ensures
        views(r@).to_multiset() == views(names@).to_multiset(),
        r@.len() == names@.len(),
        sorted_names(views(r@)),
{
    let mut v = names;
    sort_strings(&mut v);
    v
}

/// Where an uploaded skin goes among the skins, compared case-insensitively.
pub enum SkinSlot {
    /// A skin of that name exists at this position: the new one needs a
    /// numbered folder name.
    Taken(usize),
    /// No skin of that name exists; this is its position.
    Free(usize),
}

/// Looks up an uploaded skin's name among the existing skin names, both in
/// ASCII lowercase.
pub fn find_skin_slot(skins: &Vec<String>, filename: &str) -> (r: SkinSlot)
    ensures
        ({
            let lower = skins@.map_values(|s: String| ascii_lower_seq(s@));
            sorted_names(lower) ==> match r {
                SkinSlot::Taken(i) => i < skins@.len() && lower[i as int] == ascii_lower_seq(filename@),
                SkinSlot::Free(i) => i <= skins@.len() && (forall|j: int|
                    0 <= j < i ==> seq_lt(lower[j], ascii_lower_seq(filename@))) && (forall|j: int|
                    i <= j < skins@.len() ==> seq_lt(ascii_lower_seq(filename@), lower[j])),
            }
        }),
{
    let mut lower: Vec<String> = Vec::new();
    let n = skins.len();
    for i in 0..n
        invariant
            n == skins@.len(),
            lower@.len() == i,
            forall|j: int| 0 <= j < i ==> #[trigger] lower@[j]@ == ascii_lower_seq(skins@[j]@),
    {
        lower.push(to_ascii_lowercase(skins[i].as_str()));
    }
    let needle = to_ascii_lowercase(filename);
    assert(views(lower@) =~= skins@.map_values(|s: String| ascii_lower_seq(s@)));
    match binary_search_names(&lower, &needle) {
        Ok(i) => SkinSlot::Taken(i),
        Err(i) => SkinSlot::Free(i),
    }
}

/// The 1-based list position of an added skin: after the existing skin of
/// the same name and its `suffix` numbered copies when the name was taken,
/// else its sorted position.
pub fn added_skin_index(slot: &SkinSlot, suffix: usize) -> (r: usize)
    requires
        match slot {
            SkinSlot::Taken(i) => i + suffix + 1 <= usize::MAX,
            SkinSlot::Free(i) => i + 1 <= usize::MAX,
        },
    ensures
        r == match slot {
            SkinSlot::Taken(i) => i + suffix + 1,
            SkinSlot::Free(i) => i + 1,
        },
{
    match slot {
        SkinSlot::Taken(i) => *i + suffix + 1,
        SkinSlot::Free(i) => *i + 1,
    }
}

/// Whether `name` equals one of `names` when both are in ASCII lowercase.
pub fn contains_ignore_ascii_case(names: &Vec<String>, name: &str) -> (r: bool)
    ensures
        r == exists|i: int|
            0 <= i < names@.len() && ascii_lower_seq(#[trigger] names@[i]@) == ascii_lower_seq(name@),
{
    let target = chars_of(to_ascii_lowercase(name).as_str());
    let n = names.len();
    for i in 0..n
        invariant
            n == names@.len(),
            target@ == ascii_lower_seq(name@),
            forall|j: int| 0 <= j < i ==> ascii_lower_seq(#[trigger] names@[j]@) != ascii_lower_seq(
                name@,
            ),
    {
        let entry = chars_of(to_ascii_lowercase(names[i].as_str()).as_str());
        if chars_eq(&entry, &target) {
            return true;
        }
    }
    false
}

/// The skin to remove: the `index`-th (from 1) of the skins in order of
/// their ASCII lowercase names; `Err` with the number of skins when there is
/// no such skin.
pub fn pick_skin_to_remove(names: Vec<String>, index: usize) -> (r: Result<String, usize>)
    ensures
        ({
            let n = names@.len();
            match r {
                Ok(name) => 1 <= index <= n && exists|sorted: Seq<Seq<char>>|
                    sorted.to_multiset() == views(names@).to_multiset() && sorted.len() == n
                        && sorted_by_lowercase(sorted) && name@ == sorted[index - 1],
                Err(len) => len == n && (index == 0 || index > n),
            }
        }),
{
    let mut v = names;
    sort_strings_by_lowercase(&mut v);
    if index >= 1 && index <= v.len() {
        let ghost sorted = views(v@);
        let name = v.swap_remove(index - 1);
        assert(name@ == sorted[index - 1]);
        Ok(name)
    } else {
        Err(v.len())
    }
}

/// Whether `user` is one of the bot's owners, who alone may add skins.
pub fn is_owner(owners: &Vec<u64>, user: u64) -> (r: bool)
    ensures
        r == owners@.contains(user),
{
    let n = owners.len();
    for i in 0..n
        invariant
            n == owners@.len(),
            forall|j: int| 0 <= j < i ==> owners@[j] != user,
    {
        if owners[i] == user {
            return true;
        }
    }
    false
}

} // verus!

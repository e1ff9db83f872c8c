//! The comparator: sub-comparators on single attributes, and their
//! composition into one order according to a sort configuration.
use crate::flags::{DirOrderFlag, Flags, SortFlag, SortOrder};
use crate::meta::{Date, Meta};
use std::cmp::Ordering;
use vstd::prelude::*;
use vstd::utf8::encode_utf8;

verus! {

/// `o` with `Less` and `Greater` exchanged.
pub open spec fn reversed(o: Ordering) -> Ordering {
    match o {
        Ordering::Less => Ordering::Greater,
        Ordering::Equal => Ordering::Equal,
        Ordering::Greater => Ordering::Less,
    }
}

/// `o` taken in direction `d`.
pub open spec fn directed(d: SortOrder, o: Ordering) -> Ordering {
    match d {
        SortOrder::Default => o,
        SortOrder::Reverse => reversed(o),
    }
}

/// The natural order of two integers.
pub open spec fn cmp_int(x: int, y: int) -> Ordering {
    if x < y {
        Ordering::Less
    } else if x == y {
        Ordering::Equal
    } else {
        Ordering::Greater
    }
}

/// Lexicographic order of byte strings; a proper prefix comes first.
pub open spec fn lex_cmp(x: Seq<u8>, y: Seq<u8>) -> Ordering
    decreases x.len(),
{
    if x.len() == 0 {
        if y.len() == 0 {
            Ordering::Equal
        } else {
            Ordering::Less
        }
    } else if y.len() == 0 {
        Ordering::Greater
    } else if x[0] != y[0] {
        cmp_int(x[0] as int, y[0] as int)
    } else {
        lex_cmp(x.drop_first(), y.drop_first())
    }
}

/// Chronological order of two dates.
pub open spec fn date_cmp(x: Date, y: Date) -> Ordering {
    if x.secs != y.secs {
        cmp_int(x.secs as int, y.secs as int)
    } else {
        cmp_int(x.nanos as int, y.nanos as int)
    }
}

/// The bytes of an entry's name, in UTF-8.
pub open spec fn name_bytes(m: Meta) -> Seq<u8> {
    encode_utf8(m.name@)
}

/// Directory-like entries before the others; equal within each group.
pub open spec fn dirs_first_order(a: Meta, b: Meta) -> Ordering {
    let da = a.file_type.spec_is_dir_like();
    let db = b.file_type.spec_is_dir_like();
    if da == db {
        Ordering::Equal
    } else if da {
        Ordering::Less
    } else {
        Ordering::Greater
    }
}

/// Names in byte-wise lexicographic order.
pub open spec fn name_order(a: Meta, b: Meta) -> Ordering {
    lex_cmp(name_bytes(a), name_bytes(b))
}

/// Larger sizes first.
pub open spec fn size_order(a: Meta, b: Meta) -> Ordering {
    cmp_int(b.size as int, a.size as int)
}

/// More recent dates first; equal dates by name.
pub open spec fn date_order(a: Meta, b: Meta) -> Ordering {
    let o = date_cmp(b.date, a.date);
    if o == Ordering::Equal {
        name_order(a, b)
    } else {
        o
    }
}

/// One sub-comparator of a composed order.
#[derive(Clone, Copy, Debug, PartialEq, Eq, Structural)]
pub enum Criterion {
    DirsFirst,
    ByName,
    BySize,
    ByDate,
}

impl Criterion {
    /// The order this sub-comparator gives two entries.
    pub open spec fn spec_apply(self, a: Meta, b: Meta) -> Ordering {
        match self {
            Criterion::DirsFirst => dirs_first_order(a, b),
            Criterion::ByName => name_order(a, b),
            Criterion::BySize => size_order(a, b),
            Criterion::ByDate => date_order(a, b),
        }
    }

    /// Runs this sub-comparator on two entries.
    pub fn apply(&self, a: &Meta, b: &Meta) -> (r: Ordering)
        ensures
            r == self.spec_apply(*a, *b),
    {
        match self {
            Criterion::DirsFirst => with_dirs_first(a, b),
            Criterion::ByName => by_name(a, b),
            Criterion::BySize => by_size(a, b),
            Criterion::ByDate => by_date(a, b),
        }
    }
}

/// Orders by the first stage whose criterion does not find the entries
/// equal, in that stage's direction; `Equal` when every stage does.
pub open spec fn chain_order(stages: Seq<(SortOrder, Criterion)>, a: Meta, b: Meta) -> Ordering
    decreases stages.len(),
{
    if stages.len() == 0 {
        Ordering::Equal
    } else {
        let o = stages[0].1.spec_apply(a, b);
        if o == Ordering::Equal {
            chain_order(stages.drop_first(), a, b)
        } else {
            directed(stages[0].0, o)
        }
    }
}

/// The sub-comparator selected by a sort key.
pub open spec fn key_criterion(k: SortFlag) -> Criterion {
    match k {
        SortFlag::Name => Criterion::ByName,
        SortFlag::Size => Criterion::BySize,
        SortFlag::Time => Criterion::ByDate,
    }
}

/// The stages a configuration composes: the grouping stage, if any, then
/// the primary key in the configured direction.
pub open spec fn stages_for(flags: Flags) -> Seq<(SortOrder, Criterion)> {
    let primary = seq![(flags.sort_order, key_criterion(flags.sort_by))];
    match flags.directory_order {
        DirOrderFlag::Unordered => primary,
        DirOrderFlag::First => seq![(SortOrder::Default, Criterion::DirsFirst)] + primary,
        DirOrderFlag::Last => seq![(SortOrder::Reverse, Criterion::DirsFirst)] + primary,
    }
}

/// What the grouping stage of a configuration says of two entries.
pub open spec fn grouping_order(d: DirOrderFlag, a: Meta, b: Meta) -> Ordering {
    match d {
        DirOrderFlag::Unordered => Ordering::Equal,
        DirOrderFlag::First => dirs_first_order(a, b),
        DirOrderFlag::Last => reversed(dirs_first_order(a, b)),
    }
}

/// The order a configuration gives two entries: grouping decides where it
/// separates them, the directed primary key otherwise.
pub open spec fn spec_compare(flags: Flags, a: Meta, b: Meta) -> Ordering {
    let g = grouping_order(flags.directory_order, a, b);
    if g != Ordering::Equal {
        g
    } else {
        directed(flags.sort_order, key_criterion(flags.sort_by).spec_apply(a, b))
    }
}

/// Directory-like entries before the others.
pub fn with_dirs_first(a: &Meta, b: &Meta) -> (r: Ordering)
    ensures
        r == dirs_first_order(*a, *b),
{
    let da = a.file_type.is_dir_like();
    let db = b.file_type.is_dir_like();
    if da == db {
        Ordering::Equal
    } else if da {
        Ordering::Less
    } else {
        Ordering::Greater
    }
}

fn cmp_u64(x: u64, y: u64) -> (r: Ordering)
    ensures
        r == cmp_int(x as int, y as int),
{
    if x < y {
        Ordering::Less
    } else if x == y {
        Ordering::Equal
    } else {
        Ordering::Greater
    }
}

/// Larger sizes first.
pub fn by_size(a: &Meta, b: &Meta) -> (r: Ordering)
    ensures
        r == size_order(*a, *b),
{
    cmp_u64(b.size, a.size)
}

fn compare_bytes(x: &[u8], y: &[u8]) -> (r: Ordering)
    ensures
        r == lex_cmp(x@, y@),
{
    let mut i: usize = 0;
    assert(x@.skip(0) =~= x@);
    assert(y@.skip(0) =~= y@);
    while i < x.len() && i < y.len()
        invariant
            i <= x@.len(),
            i <= y@.len(),
            lex_cmp(x@, y@) == lex_cmp(x@.skip(i as int), y@.skip(i as int)),
        decreases x@.len() - i,
    {
        if x[i] < y[i] {
            return Ordering::Less;
        } else if x[i] > y[i] {
            return Ordering::Greater;
        }
        assert(x@.skip(i as int).drop_first() =~= x@.skip(i + 1));
        assert(y@.skip(i as int).drop_first() =~= y@.skip(i + 1));
        i = i + 1;
    }
    if x.len() == y.len() {
        Ordering::Equal
    } else if i == x.len() {
        Ordering::Less
    } else {
        Ordering::Greater
    }
}

/// Names in byte-wise lexicographic order.
pub fn by_name(a: &Meta, b: &Meta) -> (r: Ordering)
    ensures
        r == name_order(*a, *b),
{
    compare_bytes(a.name.as_str().as_bytes(), b.name.as_str().as_bytes())
}

/// More recent dates first; entries of the same date by name.
pub fn by_date(a: &Meta, b: &Meta) -> (r: Ordering)
    ensures
        r == date_order(*a, *b),
{
    let o = if a.date.secs != b.date.secs {
        if b.date.secs < a.date.secs {
            Ordering::Less
        } else {
            Ordering::Greater
        }
    } else {
        cmp_u64(b.date.nanos as u64, a.date.nanos as u64)
    };
    match o {
        Ordering::Equal => by_name(a, b),
        _ => o,
    }
}


/// A composed order: a list of sub-comparators, each tagged with the
/// direction its result is taken in, tried in turn.
pub struct Sorter {
    stages: Vec<(SortOrder, Criterion)>,
}

impl View for Sorter {
    type V = Seq<(SortOrder, Criterion)>;

    closed spec fn view(&self) -> Seq<(SortOrder, Criterion)> {
        self.stages@
    }
}

/// The stages of a configuration give the order `spec_compare` describes.
pub proof fn lemma_stages_for(flags: Flags, a: Meta, b: Meta)
    ensures
        chain_order(stages_for(flags), a, b) == spec_compare(flags, a, b),
{
    let primary = seq![(flags.sort_order, key_criterion(flags.sort_by))];
    assert(primary.drop_first() =~= Seq::<(SortOrder, Criterion)>::empty());
    assert(chain_order(primary, a, b) == directed(
        flags.sort_order,
        key_criterion(flags.sort_by).spec_apply(a, b),
    )) by {
        reveal_with_fuel(chain_order, 2);
    }
    match flags.directory_order {
        DirOrderFlag::Unordered => {},
        DirOrderFlag::First => {
            let st = seq![(SortOrder::Default, Criterion::DirsFirst)] + primary;
            assert(st.drop_first() =~= primary);
        },
        DirOrderFlag::Last => {
            let st = seq![(SortOrder::Reverse, Criterion::DirsFirst)] + primary;
            assert(st.drop_first() =~= primary);
        },
    }
}

/// Builds the comparator of a configuration: the grouping stage first, if
/// the configuration asks for one, then the primary key.
pub fn create_sorter(flags: &Flags) -> (s: Sorter)
    ensures
        s@ == stages_for(*flags),
        forall|a: Meta, b: Meta| #[trigger] chain_order(s@, a, b) == spec_compare(*flags, a, b),
{
    let mut stages: Vec<(SortOrder, Criterion)> = Vec::new();
    match flags.directory_order {
        DirOrderFlag::First => {
            stages.push((SortOrder::Default, Criterion::DirsFirst));
        },
        DirOrderFlag::Last => {
            stages.push((SortOrder::Reverse, Criterion::DirsFirst));
        },
        DirOrderFlag::Unordered => {},
    }
    let other = match flags.sort_by {
        SortFlag::Name => Criterion::ByName,
        SortFlag::Size => Criterion::BySize,
        SortFlag::Time => Criterion::ByDate,
    };
    stages.push((flags.sort_order, other));
    assert(stages@ =~= stages_for(*flags));
    assert forall|a: Meta, b: Meta| #[trigger]
        chain_order(stages@, a, b) == spec_compare(*flags, a, b) by {
        lemma_stages_for(*flags, a, b);
    }
    Sorter { stages }
}

fn apply_direction(d: SortOrder, o: Ordering) -> (r: Ordering)
    ensures
        r == directed(d, o),
{
    match d {
        SortOrder::Default => o,
        SortOrder::Reverse => match o {
            Ordering::Less => Ordering::Greater,
            Ordering::Equal => Ordering::Equal,
            Ordering::Greater => Ordering::Less,
        },
    }
}

impl Sorter {
    /// Compares two entries: the first stage that does not find them equal
    /// decides, in its own direction.
    pub fn compare(&self, a: &Meta, b: &Meta) -> (r: Ordering)
        ensures
            r == chain_order(self@, *a, *b),
    {
        let n = self.stages.len();
        let mut i: usize = 0;
        assert(self@.skip(0) =~= self@);
        while i < n
            invariant
                n == self@.len(),
                i <= n,
                chain_order(self@, *a, *b) == chain_order(self@.skip(i as int), *a, *b),
            decreases n - i,
        {
            let (direction, criterion) = self.stages[i];
            let o = criterion.apply(a, b);
            match o {
                Ordering::Equal => {},
                _ => {
                    return apply_direction(direction, o);
                },
            }
            assert(self@.skip(i as int).drop_first() =~= self@.skip(i + 1));
            i = i + 1;
        }
        Ordering::Equal
    }
}

} // verus!

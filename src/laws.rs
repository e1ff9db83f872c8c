//! Properties of the composed order, proved over its specification.
use crate::flags::{DirOrderFlag, Flags, SortFlag, SortOrder};
use crate::meta::Meta;
use crate::sort::{
    cmp_int, date_cmp, date_order, directed, dirs_first_order, grouping_order, key_criterion,
    lex_cmp, name_bytes, name_order, reversed, spec_compare, Criterion,
};
use std::cmp::Ordering;
use vstd::prelude::*;
use vstd::utf8::encode_utf8_decode_utf8;

verus! {

proof fn lemma_lex_antisymmetric(x: Seq<u8>, y: Seq<u8>)
    ensures
        lex_cmp(y, x) == reversed(lex_cmp(x, y)),
    decreases x.len(),
{
    if x.len() > 0 && y.len() > 0 && x[0] == y[0] {
        lemma_lex_antisymmetric(x.drop_first(), y.drop_first());
    }
}

proof fn lemma_lex_equal(x: Seq<u8>, y: Seq<u8>)
    ensures
        lex_cmp(x, y) == Ordering::Equal <==> x == y,
    decreases x.len(),
{
    if x.len() > 0 && y.len() > 0 {
        if x[0] == y[0] {
            lemma_lex_equal(x.drop_first(), y.drop_first());
            if x.drop_first() == y.drop_first() {
                assert forall|i: int| 0 <= i < x.len() implies x[i] == y[i] by {
                    if i > 0 {
                        assert(x[i] == x.drop_first()[i - 1]);
                        assert(y[i] == y.drop_first()[i - 1]);
                    }
                }
                assert(x =~= y);
            }
        } else {
            assert(x != y);
        }
    } else if x.len() != y.len() {
        assert(x != y);
    } else {
        assert(x =~= y);
    }
}

/// Names compare equal exactly when they are the same text.
proof fn lemma_name_order_equal(a: Meta, b: Meta)
    ensures
        name_order(a, b) == Ordering::Equal <==> a.name@ == b.name@,
{
    lemma_lex_equal(name_bytes(a), name_bytes(b));
    encode_utf8_decode_utf8(a.name@);
    encode_utf8_decode_utf8(b.name@);
}

proof fn lemma_criterion_antisymmetric(c: Criterion, a: Meta, b: Meta)
    ensures
        c.spec_apply(b, a) == reversed(c.spec_apply(a, b)),
{
    lemma_lex_antisymmetric(name_bytes(a), name_bytes(b));
    match c {
        Criterion::ByDate => {
            assert(date_cmp(a.date, b.date) == reversed(date_cmp(b.date, a.date)));
        },
        _ => {},
    }
}

/// The order is total and depends only on the attributes it reads: entries
/// with the same name, size, date and type are ordered alike, and every
/// comparison is one of `Less`, `Equal` and `Greater`.
pub proof fn law_total_and_deterministic(flags: Flags, a1: Meta, b1: Meta, a2: Meta, b2: Meta)
    requires
        a1.name@ == a2.name@,
        a1.size == a2.size,
        a1.date == a2.date,
        a1.file_type == a2.file_type,
        b1.name@ == b2.name@,
        b1.size == b2.size,
        b1.date == b2.date,
        b1.file_type == b2.file_type,
    ensures
        spec_compare(flags, a1, b1) == spec_compare(flags, a2, b2),
        spec_compare(flags, a1, b1) == Ordering::Less || spec_compare(flags, a1, b1)
            == Ordering::Equal || spec_compare(flags, a1, b1) == Ordering::Greater,
{
}

/// Swapping the entries reverses the result: `Less` one way is `Greater`
/// the other, and `Equal` stays `Equal`.
pub proof fn law_antisymmetric(flags: Flags, a: Meta, b: Meta)
    ensures
        spec_compare(flags, b, a) == reversed(spec_compare(flags, a, b)),
        spec_compare(flags, a, b) == Ordering::Less <==> spec_compare(flags, b, a)
            == Ordering::Greater,
        spec_compare(flags, a, b) == Ordering::Equal <==> spec_compare(flags, b, a)
            == Ordering::Equal,
{
    lemma_criterion_antisymmetric(key_criterion(flags.sort_by), a, b);
    lemma_criterion_antisymmetric(Criterion::DirsFirst, a, b);
}

/// With directories first, a directory-like entry comes before any other
/// entry, whatever the primary key and its direction.
pub proof fn law_dirs_first(flags: Flags, d: Meta, f: Meta)
    requires
        flags.directory_order == DirOrderFlag::First,
        d.file_type.spec_is_dir_like(),
        !f.file_type.spec_is_dir_like(),
    ensures
        spec_compare(flags, d, f) == Ordering::Less,
{
}

/// With directories last, a directory-like entry comes after any other
/// entry, whatever the primary key and its direction.
pub proof fn law_dirs_last(flags: Flags, d: Meta, f: Meta)
    requires
        flags.directory_order == DirOrderFlag::Last,
        d.file_type.spec_is_dir_like(),
        !f.file_type.spec_is_dir_like(),
    ensures
        spec_compare(flags, d, f) == Ordering::Greater,
{
}

/// Without grouping, the directed primary key alone decides.
pub proof fn law_no_grouping(flags: Flags, a: Meta, b: Meta)
    requires
        flags.directory_order == DirOrderFlag::Unordered,
    ensures
        spec_compare(flags, a, b) == directed(
            flags.sort_order,
            key_criterion(flags.sort_by).spec_apply(a, b),
        ),
{
}

/// Reversing the primary key reverses the order of two entries that the
/// grouping stage does not separate.
pub proof fn law_reverse_symmetric(
    directory_order: DirOrderFlag,
    sort_by: SortFlag,
    a: Meta,
    b: Meta,
)
    requires
        directory_order == DirOrderFlag::Unordered || a.file_type.spec_is_dir_like()
            == b.file_type.spec_is_dir_like(),
    ensures
        spec_compare(
            (Flags { directory_order, sort_by, sort_order: SortOrder::Reverse }),
            a,
            b,
        ) == reversed(
            spec_compare((Flags { directory_order, sort_by, sort_order: SortOrder::Default }), a, b),
        ),
{
    assert(grouping_order(directory_order, a, b) == Ordering::Equal);
}

/// By time, entries of the same date are ordered by name, and entries with
/// different names are never equal.
pub proof fn law_time_tie_break(flags: Flags, a: Meta, b: Meta)
    requires
        flags.sort_by == SortFlag::Time,
        a.date == b.date,
    ensures
        date_order(a, b) == name_order(a, b),
        a.name@ != b.name@ ==> spec_compare(flags, a, b) != Ordering::Equal,
{
    lemma_name_order_equal(a, b);
}

/// By size, the larger entry comes first in the default direction and last
/// in the reverse one, where grouping does not separate the two.
pub proof fn law_size_larger_first(flags: Flags, a: Meta, b: Meta)
    requires
        flags.sort_by == SortFlag::Size,
        a.size > b.size,
        flags.directory_order == DirOrderFlag::Unordered || a.file_type.spec_is_dir_like()
            == b.file_type.spec_is_dir_like(),
    ensures
        flags.sort_order == SortOrder::Default ==> spec_compare(flags, a, b) == Ordering::Less,
        flags.sort_order == SortOrder::Reverse ==> spec_compare(flags, a, b) == Ordering::Greater,
{
    assert(dirs_first_order(a, b) == Ordering::Equal ==> grouping_order(
        flags.directory_order,
        a,
        b,
    ) == Ordering::Equal);
    assert(cmp_int(b.size as int, a.size as int) == Ordering::Less);
}

} // verus!

//! The adaptive column layout engine for the issue table.
//!
//! Given the viewport width it decides which columns are shown and how wide
//! each is. Columns are added in a fixed priority order as space allows —
//! the first is shown unconditionally — and the leftover space is shared
//! among the flexible columns by their factors. The chosen columns are
//! emitted in a fixed render order, distinct from the priority order.

use vstd::arithmetic::div_mod::{lemma_fundamental_div_mod, lemma_mod_division_less_than_divisor};
use vstd::prelude::*;

verus! {

/// The columns of the issue table.
#[derive(Debug, Clone, Copy, PartialEq, Eq, Structural)]
pub enum Field {
    Id,
    Summary,
    Status,
    Priority,
}

/// A column's width policy: an exact cell width, or a minimum plus a
/// proportional share of the leftover space.
#[derive(Debug, Clone, Copy, PartialEq, Eq, Structural)]
pub enum FieldWidth {
    Flexible { factor: u16, min: u16 },
    Fixed(u16),
}

impl Field {
    /// The width policy of the column.
    pub open spec fn spec_width(self) -> FieldWidth {
        match self {
            Field::Id => FieldWidth::Fixed(8u16),
            Field::Summary => FieldWidth::Flexible { factor: 5u16, min: 20u16 },
            Field::Status => FieldWidth::Flexible { factor: 1u16, min: 5u16 },
            Field::Priority => FieldWidth::Fixed(1u16),
        }
    }

    /// The least width the column can occupy.
    pub open spec fn min_width(self) -> int {
        match self.spec_width() {
            FieldWidth::Fixed(x) => x as int,
            FieldWidth::Flexible { factor, min } => min as int,
        }
    }

    /// The column's weight when leftover space is shared; a fixed column
    /// has none.
    pub open spec fn flex_factor(self) -> int {
        match self.spec_width() {
            FieldWidth::Fixed(x) => 0,
            FieldWidth::Flexible { factor, min } => factor as int,
        }
    }

    pub fn width(self) -> (w: FieldWidth)
        ensures
            w == self.spec_width(),
    {
        match self {
            Field::Id => FieldWidth::Fixed(8),
            Field::Summary => FieldWidth::Flexible { factor: 5, min: 20 },
            Field::Status => FieldWidth::Flexible { factor: 1, min: 5 },
            Field::Priority => FieldWidth::Fixed(1),
        }
    }
}

/// Whether the second-priority column (status) fits beside the first.
pub open spec fn includes_status(w: int) -> bool {
    Field::Summary.min_width() + Field::Status.min_width() + 2 <= w
}

/// The width reserved once the status column has been considered.
pub open spec fn used_after_status(w: int) -> int {
    Field::Summary.min_width() + if includes_status(w) {
        Field::Status.min_width() + 2
    } else {
        0
    }
}

/// Whether the third-priority column (id) fits beside those before it.
pub open spec fn includes_id(w: int) -> bool {
    used_after_status(w) + Field::Id.min_width() + 2 <= w
}

/// The width reserved once the id column has been considered.
pub open spec fn used_after_id(w: int) -> int {
    used_after_status(w) + if includes_id(w) {
        Field::Id.min_width() + 2
    } else {
        0
    }
}

/// Whether the last-priority column (priority) fits beside the rest.
pub open spec fn includes_priority(w: int) -> bool {
    used_after_id(w) + Field::Priority.min_width() + 2 <= w
}

/// The minimum widths of all shown columns plus the spacing between them.
pub open spec fn used_total(w: int) -> int {
    used_after_id(w) + if includes_priority(w) {
        Field::Priority.min_width() + 2
    } else {
        0
    }
}

/// Whether the column is shown at viewport width `w`.
pub open spec fn included(w: int, f: Field) -> bool {
    match f {
        Field::Summary => true,
        Field::Status => includes_status(w),
        Field::Id => includes_id(w),
        Field::Priority => includes_priority(w),
    }
}

/// The summed flex factors of the shown columns.
pub open spec fn total_flex(w: int) -> int {
    Field::Summary.flex_factor() + if includes_status(w) {
        Field::Status.flex_factor()
    } else {
        0
    } + if includes_id(w) {
        Field::Id.flex_factor()
    } else {
        0
    } + if includes_priority(w) {
        Field::Priority.flex_factor()
    } else {
        0
    }
}

/// The space left over once every shown column has its minimum.
pub open spec fn remaining(w: int) -> int {
    if w - used_total(w) > 0 {
        w - used_total(w)
    } else {
        0
    }
}

/// The width a shown column is finally given: its fixed width, or its
/// minimum plus its share of the leftover space.
pub open spec fn final_width(w: int, f: Field) -> int {
    match f.spec_width() {
        FieldWidth::Fixed(x) => x as int,
        FieldWidth::Flexible { factor, min } => if total_flex(w) == 0 {
            min as int
        } else {
            min + remaining(w) * factor / total_flex(w)
        },
    }
}

/// The layout at viewport width `w`: the shown columns in render order,
/// each with its final width.
pub open spec fn spec_layout(w: int) -> Seq<(Field, u16)> {
    (if included(w, Field::Id) {
        seq![(Field::Id, final_width(w, Field::Id) as u16)]
    } else {
        Seq::empty()
    }) + (if included(w, Field::Priority) {
        seq![(Field::Priority, final_width(w, Field::Priority) as u16)]
    } else {
        Seq::empty()
    }) + seq![(Field::Summary, final_width(w, Field::Summary) as u16)] + (if included(
        w,
        Field::Status,
    ) {
        seq![(Field::Status, final_width(w, Field::Status) as u16)]
    } else {
        Seq::empty()
    })
}

/// The sum of the widths a layout hands out.
pub open spec fn sum_widths(s: Seq<(Field, u16)>) -> int
    decreases s.len(),
{
    if s.len() == 0 {
        0
    } else {
        s[0].1 + sum_widths(s.drop_first())
    }
}

/// Lays out the issue table for viewport width `available_width`.
pub fn layout_columns(available_width: u16) -> (r: Vec<(Field, u16)>)
    ensures
        r@ =~= spec_layout(available_width as int),
{
    let w: u16 = available_width;
    // Walk the priority order: summary unconditionally, then each further
    // column if its minimum plus the column spacing still fits.
    let mut used_width: u16 = min_of(Field::Summary.width());
    let inc_status: bool = used_width + min_of(Field::Status.width()) + 2 <= w;
    if inc_status {
        used_width = used_width + min_of(Field::Status.width()) + 2;
    }
    let inc_id: bool = used_width + min_of(Field::Id.width()) + 2 <= w;
    if inc_id {
        used_width = used_width + min_of(Field::Id.width()) + 2;
    }
    let inc_priority: bool = used_width + min_of(Field::Priority.width()) + 2 <= w;
    if inc_priority {
        used_width = used_width + min_of(Field::Priority.width()) + 2;
    }
    let rem: u16 = if w > used_width {
        w - used_width
    } else {
        0
    };
    let tf: u16 = if inc_status {
        6
    } else {
        5
    };
    proof {
        lemma_flex_shares(rem as int);
    }
    let summary_w: u16 = ((20u32 + (rem as u32) * 5 / (tf as u32)) as u16);
    let status_w: u16 = ((5u32 + (rem as u32) * 1 / (tf as u32)) as u16);
    // Emit the shown columns in render order.
    let mut r: Vec<(Field, u16)> = Vec::new();
    if inc_id {
        r.push((Field::Id, 8));
    }
    if inc_priority {
        r.push((Field::Priority, 1));
    }
    r.push((Field::Summary, summary_w));
    if inc_status {
        r.push((Field::Status, status_w));
    }
    r
}

/// The minimum width of a policy.
fn min_of(fw: FieldWidth) -> (m: u16)
    ensures
        m as int == match fw {
            FieldWidth::Fixed(x) => x as int,
            FieldWidth::Flexible { factor, min } => min as int,
        },
{
    match fw {
        FieldWidth::Fixed(x) => x,
        FieldWidth::Flexible { factor: _, min } => min,
    }
}

/// How the leftover space splits under the two possible factor sums: the
/// shares are non-negative and never sum past the leftover itself.
proof fn lemma_flex_shares(r: int)
    requires
        r >= 0,
    ensures
        0 <= r * 5 / 6,
        0 <= r * 1 / 6,
        r * 5 / 6 + r * 1 / 6 <= r,
        r * 5 / 5 == r,
        r * 1 / 5 <= r,
{
    lemma_fundamental_div_mod(r * 5, 6);
    lemma_mod_division_less_than_divisor(r * 5, 6);
    lemma_fundamental_div_mod(r * 1, 6);
    lemma_mod_division_less_than_divisor(r * 1, 6);
    lemma_fundamental_div_mod(r * 5, 5);
    lemma_mod_division_less_than_divisor(r * 5, 5);
    lemma_fundamental_div_mod(r * 1, 5);
    lemma_mod_division_less_than_divisor(r * 1, 5);
}

proof fn lemma_sum_one(s: Seq<(Field, u16)>, a: (Field, u16))
    requires
        s =~= seq![a],
    ensures
        sum_widths(s) == a.1,
{
    assert(s.len() == 1);
    assert(s[0] == a);
    assert(s.drop_first() =~= Seq::<(Field, u16)>::empty());
    assert(sum_widths(s.drop_first()) == 0);
}

proof fn lemma_sum_two(s: Seq<(Field, u16)>, a: (Field, u16), b: (Field, u16))
    requires
        s =~= seq![a, b],
    ensures
        sum_widths(s) == a.1 + b.1,
{
    assert(s.drop_first() =~= seq![b]);
    lemma_sum_one(s.drop_first(), b);
}

proof fn lemma_sum_three(s: Seq<(Field, u16)>, a: (Field, u16), b: (Field, u16), c: (Field, u16))
    requires
        s =~= seq![a, b, c],
    ensures
        sum_widths(s) == a.1 + b.1 + c.1,
{
    assert(s.drop_first() =~= seq![b, c]);
    lemma_sum_two(s.drop_first(), b, c);
}

proof fn lemma_sum_four(
    s: Seq<(Field, u16)>,
    a: (Field, u16),
    b: (Field, u16),
    c: (Field, u16),
    d: (Field, u16),
)
    requires
        s =~= seq![a, b, c, d],
    ensures
        sum_widths(s) == a.1 + b.1 + c.1 + d.1,
{
    assert(s.drop_first() =~= seq![b, c, d]);
    lemma_sum_three(s.drop_first(), b, c, d);
}

/// Law: the summary column is always laid out, and the widths handed out
/// plus the spacing between columns never exceed the viewport — except in
/// the degenerate case that only the summary column is shown and even its
/// minimum is wider than the viewport.
pub proof fn lemma_layout_fits(w: int)
    requires
        0 <= w <= u16::MAX,
    ensures
        exists|i: int|
            0 <= i < spec_layout(w).len() && (#[trigger] spec_layout(w)[i]).0 == Field::Summary,
        sum_widths(spec_layout(w)) + 2 * (spec_layout(w).len() - 1) <= w || (spec_layout(w).len()
            == 1 && Field::Summary.min_width() > w),
{
    lemma_flex_shares(remaining(w));
    let sw = (Field::Summary, final_width(w, Field::Summary) as u16);
    let stw = (Field::Status, final_width(w, Field::Status) as u16);
    let idw = (Field::Id, final_width(w, Field::Id) as u16);
    let prw = (Field::Priority, final_width(w, Field::Priority) as u16);
    if includes_id(w) {
        if includes_priority(w) {
            assert(spec_layout(w) =~= seq![idw, prw, sw, stw]);
            lemma_sum_four(spec_layout(w), idw, prw, sw, stw);
            assert(spec_layout(w)[2].0 == Field::Summary);
        } else {
            assert(spec_layout(w) =~= seq![idw, sw, stw]);
            lemma_sum_three(spec_layout(w), idw, sw, stw);
            assert(spec_layout(w)[1].0 == Field::Summary);
        }
    } else if includes_status(w) {
        if includes_priority(w) {
            assert(spec_layout(w) =~= seq![prw, sw, stw]);
            lemma_sum_three(spec_layout(w), prw, sw, stw);
            assert(spec_layout(w)[1].0 == Field::Summary);
        } else {
            assert(spec_layout(w) =~= seq![sw, stw]);
            lemma_sum_two(spec_layout(w), sw, stw);
            assert(spec_layout(w)[0].0 == Field::Summary);
        }
    } else {
        if includes_priority(w) {
            assert(spec_layout(w) =~= seq![prw, sw]);
            lemma_sum_two(spec_layout(w), prw, sw);
            assert(spec_layout(w)[1].0 == Field::Summary);
        } else {
            assert(spec_layout(w) =~= seq![sw]);
            lemma_sum_one(spec_layout(w), sw);
            assert(spec_layout(w)[0].0 == Field::Summary);
        }
    }
}

} // verus!

//! Memory layouts: the placement of named, typed fields in a GPU structure.
//!
//! Fields are placed in a canonical order, larger alignment first and by name
//! among equals, so that a layout depends only on the set of its fields.

use vstd::prelude::*;
use vstd::string::*;
use crate::text::{lemma_name_irreflexive, lemma_name_total, lemma_name_transitive, name_lt, str_eq, str_lt};
use crate::value::ValueType;

verus! {

/// Alignment of a layout without fields: the smallest alignment a field can
/// have.
pub const MIN_ALIGN: u32 = 4;

/// Largest number of fields in a layout; it keeps every offset within `u32`.
pub const MAX_ENTRIES: usize = 0x0800_0000;

/// A field to place: a name and a type.
pub struct Field {
    /// Name of the field.
    pub name: String,
    /// Type of the field, which gives its size and alignment.
    pub value_type: ValueType,
}

/// The mathematical value of a [`Field`].
pub ghost struct FieldView {
    /// Name of the field.
    pub name: Seq<char>,
    /// Type of the field.
    pub value_type: ValueType,
}

impl View for Field {
    type V = FieldView;

    open spec fn view(&self) -> FieldView {
        FieldView { name: self.name@, value_type: self.value_type }
    }
}

/// The mathematical values of a sequence of fields.
pub open spec fn field_views(fields: Seq<Field>) -> Seq<FieldView> {
    fields.map_values(|f: Field| f@)
}

/// The canonical order: `a` is placed before `b` when its alignment is
/// larger, or equal with a smaller name.
pub open spec fn precedes(a: FieldView, b: FieldView) -> bool {
    a.value_type.align_spec() > b.value_type.align_spec() || (a.value_type.align_spec()
        == b.value_type.align_spec() && name_lt(a.name, b.name))
}

/// Whether a sequence of fields is in canonical order. Such a sequence holds
/// no name twice.
pub open spec fn canonical(fields: Seq<FieldView>) -> bool {
    forall|i: int, j: int|
        0 <= i < j < fields.len() ==> precedes(#[trigger] fields[i], #[trigger] fields[j])
}

/// Whether no two fields of a sequence share a name.
pub open spec fn distinct_names(fields: Seq<FieldView>) -> bool {
    forall|i: int, j: int|
        0 <= i < j < fields.len() ==> (#[trigger] fields[i]).name != (#[trigger] fields[j]).name
}

/// The smallest multiple of `a` that is at least `x`.
pub open spec fn round_up(x: nat, a: nat) -> nat {
    if a == 0 || x % a == 0 {
        x
    } else {
        (x + a - x % a) as nat
    }
}

/// The first free byte after the first `i` fields have been placed greedily.
pub open spec fn cursor(fields: Seq<FieldView>, i: nat) -> nat
    decreases i,
{
    if i == 0 {
        0
    } else {
        let prev = fields[i - 1].value_type;
        round_up(cursor(fields, (i - 1) as nat), prev.align_spec()) + prev.size_spec()
    }
}

/// The offset of field `i` under greedy placement: the smallest multiple of
/// its alignment at or after the cursor.
pub open spec fn offset_of(fields: Seq<FieldView>, i: nat) -> nat {
    round_up(cursor(fields, i), fields[i as int].value_type.align_spec())
}

/// The largest alignment among the fields, and [`MIN_ALIGN`] when there is
/// none.
pub open spec fn max_align(fields: Seq<FieldView>) -> nat
    decreases fields.len(),
{
    if fields.len() == 0 {
        MIN_ALIGN as nat
    } else {
        let rest = max_align(fields.drop_last());
        let last = fields.last().value_type.align_spec();
        if last > rest {
            last
        } else {
            rest
        }
    }
}

/// The size of the structure: the end of the last field, rounded up to the
/// alignment of the layout.
pub open spec fn total_size(fields: Seq<FieldView>) -> nat {
    round_up(cursor(fields, fields.len()), max_align(fields))
}

/// The canonical order never places a field before itself.
pub proof fn lemma_precedes_irreflexive(a: FieldView)
    ensures
        !precedes(a, a),
{
    lemma_name_irreflexive(a.name);
}

/// The canonical order is transitive.
pub proof fn lemma_precedes_transitive(a: FieldView, b: FieldView, c: FieldView)
    requires
        precedes(a, b),
        precedes(b, c),
    ensures
        precedes(a, c),
{
    if a.value_type.align_spec() == b.value_type.align_spec() && b.value_type.align_spec()
        == c.value_type.align_spec() {
        lemma_name_transitive(a.name, b.name, c.name);
    }
}

/// Of two fields with different names, one is placed before the other.
pub proof fn lemma_precedes_total(a: FieldView, b: FieldView)
    requires
        a.name != b.name,
    ensures
        precedes(a, b) || precedes(b, a),
{
    if !name_lt(a.name, b.name) && !name_lt(b.name, a.name) {
        lemma_name_total(a.name, b.name);
    }
}

/// A sequence in canonical order holds no field twice.
pub proof fn lemma_canonical_distinct(fields: Seq<FieldView>)
    requires
        canonical(fields),
    ensures
        fields.no_duplicates(),
{
    assert forall|i: int, j: int|
        0 <= i < fields.len() && 0 <= j < fields.len() && i != j implies fields[i] != fields[j] by {
        lemma_precedes_irreflexive(fields[i]);
        if i < j {
            assert(precedes(fields[i], fields[j]));
        } else {
            assert(precedes(fields[j], fields[i]));
        }
    }
}

/// A sequence without repetition that holds the fields of a sequence with
/// distinct names has distinct names too.
pub proof fn lemma_distinct_names_carry(a: Seq<FieldView>, b: Seq<FieldView>)
    requires
        distinct_names(a),
        b.no_duplicates(),
        a.to_set() == b.to_set(),
    ensures
        distinct_names(b),
{
    assert forall|i: int, j: int| 0 <= i < j < b.len() implies (#[trigger] b[i]).name != (
    #[trigger] b[j]).name by {
        assert(b.to_set().contains(b[i]));
        assert(b.to_set().contains(b[j]));
        assert(a.contains(b[i]));
        assert(a.contains(b[j]));
        let p = choose|p: int| 0 <= p < a.len() && a[p] == b[i];
        let q = choose|q: int| 0 <= q < a.len() && a[q] == b[j];
        assert(b[i] != b[j]);
        if p < q {
            assert(a[p].name != a[q].name);
        } else {
            assert(a[q].name != a[p].name);
        }
    }
}

/// The canonical order of a set of fields is unique: two sequences in
/// canonical order that hold the same fields are equal.
pub proof fn lemma_canonical_unique(a: Seq<FieldView>, b: Seq<FieldView>)
    requires
        canonical(a),
        canonical(b),
        a.to_set() == b.to_set(),
    ensures
        a == b,
    decreases a.len(),
{
    lemma_canonical_distinct(a);
    lemma_canonical_distinct(b);
    a.unique_seq_to_set();
    b.unique_seq_to_set();
    if a.len() == 0 {
        assert(a =~= b);
    } else {
        assert(a.to_set().contains(a[0]));
        assert(b.contains(a[0]));
        let k = choose|k: int| 0 <= k < b.len() && b[k] == a[0];
        assert(b.to_set().contains(b[0]));
        assert(a.contains(b[0]));
        let m = choose|m: int| 0 <= m < a.len() && a[m] == b[0];
        if k > 0 && m > 0 {
            assert(precedes(b[0], b[k]));
            assert(precedes(a[0], a[m]));
            lemma_precedes_transitive(a[0], b[0], a[0]);
            lemma_precedes_irreflexive(a[0]);
        }
        assert(a[0] == b[0]);
        let ta = a.drop_first();
        let tb = b.drop_first();
        assert forall|x: FieldView| ta.to_set().contains(x) <==> tb.to_set().contains(x) by {
            if ta.contains(x) {
                let i = choose|i: int| 0 <= i < ta.len() && ta[i] == x;
                assert(a[i + 1] == x);
                assert(a.to_set().contains(x));
                assert(b.contains(x));
                let j = choose|j: int| 0 <= j < b.len() && b[j] == x;
                assert(j != 0);
                assert(tb[j - 1] == x);
            }
            if tb.contains(x) {
                let i = choose|i: int| 0 <= i < tb.len() && tb[i] == x;
                assert(b[i + 1] == x);
                assert(b.to_set().contains(x));
                assert(a.contains(x));
                let j = choose|j: int| 0 <= j < a.len() && a[j] == x;
                assert(j != 0);
                assert(ta[j - 1] == x);
            }
        }
        assert(ta.to_set() =~= tb.to_set());
        assert forall|i: int, j: int| 0 <= i < j < ta.len() implies precedes(
            #[trigger] ta[i],
            #[trigger] ta[j],
        ) by {
            assert(precedes(a[i + 1], a[j + 1]));
        }
        assert forall|i: int, j: int| 0 <= i < j < tb.len() implies precedes(
            #[trigger] tb[i],
            #[trigger] tb[j],
        ) by {
            assert(precedes(b[i + 1], b[j + 1]));
        }
        lemma_canonical_unique(ta, tb);
        assert(a =~= seq![a[0]] + ta);
        assert(b =~= seq![b[0]] + tb);
    }
}

/// In canonical order greedy placement wastes no byte: every field starts at
/// the cursor, which is the sum of the sizes before it, and no offset exceeds
/// 16 bytes per field placed.
pub proof fn lemma_no_padding(fields: Seq<FieldView>, i: nat)
    requires
        canonical(fields),
        i < fields.len(),
    ensures
        offset_of(fields, i) == cursor(fields, i),
        cursor(fields, i) % fields[i as int].value_type.align_spec() == 0,
        cursor(fields, i) <= 16 * i,
        cursor(fields, i + 1) == cursor(fields, i) + fields[i as int].value_type.size_spec(),
    decreases i,
{
    let b = fields[i as int].value_type.align_spec();
    fields[i as int].value_type.lemma_size_align();
    if i > 0 {
        lemma_no_padding(fields, (i - 1) as nat);
        assert(precedes(fields[i - 1], fields[i as int]));
        let a = fields[i - 1].value_type.align_spec();
        let c = cursor(fields, (i - 1) as nat);
        fields[i - 1].value_type.lemma_size_align();
        assert(cursor(fields, i) == c + a);
        assert(b <= a);
        assert((c + a) % b == 0) by {
            if a == 4 {
                assert(c % 4 == 0);
            } else if a == 8 {
                assert(c % 8 == 0);
            } else {
                assert(c % 16 == 0);
            }
            if b == 4 {
                assert((c + a) % 4 == 0);
            } else if b == 8 {
                assert((c + a) % 8 == 0);
            } else {
                assert((c + a) % 16 == 0);
            }
        }
    }
    assert(cursor(fields, i) % b == 0) by {
        if b == 4 {
            assert(cursor(fields, i) % 4 == 0);
        } else if b == 8 {
            assert(cursor(fields, i) % 8 == 0);
        } else {
            assert(cursor(fields, i) % 16 == 0);
        }
    }
    assert(cursor(fields, i + 1) == round_up(cursor(fields, i), b)
        + fields[i as int].value_type.size_spec());
}

/// The alignment of a layout is 4, 8 or 16, and at least that of each field.
pub proof fn lemma_max_align(fields: Seq<FieldView>)
    ensures
        max_align(fields) == 4 || max_align(fields) == 8 || max_align(fields) == 16,
        forall|i: int|
            0 <= i < fields.len() ==> (#[trigger] fields[i]).value_type.align_spec() <= max_align(
                fields,
            ),
    decreases fields.len(),
{
    if fields.len() > 0 {
        lemma_max_align(fields.drop_last());
        assert forall|i: int| 0 <= i < fields.len() implies (
        #[trigger] fields[i]).value_type.align_spec() <= max_align(fields) by {
            if i < fields.len() - 1 {
                assert(fields.drop_last()[i] == fields[i]);
            }
        }
    }
}

/// In canonical order the first field has the largest alignment.
pub proof fn lemma_max_align_is_first(fields: Seq<FieldView>)
    requires
        canonical(fields),
        fields.len() > 0,
    ensures
        max_align(fields) == fields[0].value_type.align_spec(),
    decreases fields.len(),
{
    fields[0].value_type.lemma_size_align();
    fields.last().value_type.lemma_size_align();
    reveal_with_fuel(max_align, 2);
    if fields.len() > 1 {
        let rest = fields.drop_last();
        assert forall|i: int, j: int| 0 <= i < j < rest.len() implies precedes(
            #[trigger] rest[i],
            #[trigger] rest[j],
        ) by {
            assert(precedes(fields[i], fields[j]));
        }
        lemma_max_align_is_first(rest);
        assert(rest[0] == fields[0]);
        assert(precedes(fields[0], fields[fields.len() - 1]));
    } else {
        assert(fields.drop_last().len() == 0);
    }
}

/// In canonical order the cursor never moves back: a later field starts at
/// or after the end of an earlier one.
pub proof fn lemma_cursor_monotone(fields: Seq<FieldView>, i: nat, j: nat)
    requires
        canonical(fields),
        i < j <= fields.len(),
    ensures
        cursor(fields, i) + fields[i as int].value_type.size_spec() <= cursor(fields, j),
    decreases j,
{
    lemma_no_padding(fields, (j - 1) as nat);
    if i + 1 < j {
        lemma_cursor_monotone(fields, i, (j - 1) as nat);
    }
}

/// One placed field of a layout.
pub struct LayoutEntry {
    name: String,
    value_type: ValueType,
    offset: u32,
}

/// The mathematical value of a [`LayoutEntry`].
pub ghost struct EntryView {
    /// Name of the field.
    pub name: Seq<char>,
    /// Type of the field.
    pub value_type: ValueType,
    /// Offset of the field from the start of the structure, in bytes.
    pub offset: nat,
}

impl EntryView {
    /// The field that the entry places.
    pub open spec fn field(self) -> FieldView {
        FieldView { name: self.name, value_type: self.value_type }
    }
}

impl View for LayoutEntry {
    type V = EntryView;

    closed spec fn view(&self) -> EntryView {
        EntryView { name: self.name@, value_type: self.value_type, offset: self.offset as nat }
    }
}

impl LayoutEntry {
    /// Name of the field.
    pub fn name(&self) -> (r: &str)
        ensures
            r@ == self@.name,
    {
        self.name.as_str()
    }

    /// Type of the field.
    pub fn value_type(&self) -> (r: ValueType)
        ensures
            r == self@.value_type,
    {
        self.value_type
    }

    /// Offset of the field in bytes.
    pub fn offset(&self) -> (r: u32)
        ensures
            r == self@.offset,
    {
        self.offset
    }

    /// Size of the field in bytes.
    pub fn size(&self) -> (r: u32)
        ensures
            r == self@.value_type.size_spec(),
    {
        self.value_type.size()
    }

    /// Alignment of the field in bytes.
    pub fn align(&self) -> (r: u32)
        ensures
            r == self@.value_type.align_spec(),
    {
        self.value_type.align()
    }
}

/// The fields that a sequence of entries places.
pub open spec fn entry_fields(entries: Seq<EntryView>) -> Seq<FieldView> {
    entries.map_values(|e: EntryView| e.field())
}

/// Whether some entry has the given name.
pub open spec fn has_name(entries: Seq<EntryView>, name: Seq<char>) -> bool {
    exists|i: int| 0 <= i < entries.len() && (#[trigger] entries[i]).name == name
}

/// Whether some entry has the given name and offset.
pub open spec fn has_offset(entries: Seq<EntryView>, name: Seq<char>, offset: nat) -> bool {
    exists|i: int|
        0 <= i < entries.len() && (#[trigger] entries[i]).name == name && entries[i].offset == offset
}

/// Whether some entry has the given name and type.
pub open spec fn has_type(entries: Seq<EntryView>, name: Seq<char>, value_type: ValueType) -> bool {
    exists|i: int|
        0 <= i < entries.len() && (#[trigger] entries[i]).name == name && entries[i].value_type
            == value_type
}

/// Whether `entries`, `size` and `align` are the layout of the fields they
/// place: the fields have distinct names and stand in canonical order, each
/// at its greedy offset, and size and alignment are those of the structure.
pub open spec fn is_layout(entries: Seq<EntryView>, size: nat, align: nat) -> bool {
    let fields = entry_fields(entries);
    &&& canonical(fields)
    &&& distinct_names(fields)
    &&& forall|i: int|
        0 <= i < entries.len() ==> (#[trigger] entries[i]).offset == offset_of(fields, i as nat)
    &&& size == total_size(fields)
    &&& align == max_align(fields)
    &&& entries.len() <= MAX_ENTRIES
}

/// A rounded-up value is a multiple of the alignment and less than one
/// alignment above the value.
pub proof fn lemma_round_up(x: nat, a: nat)
    requires
        a == 4 || a == 8 || a == 16,
    ensures
        round_up(x, a) % a == 0,
        x <= round_up(x, a) < x + a,
{
    if a == 4 {
        assert(round_up(x, 4) % 4 == 0);
    } else if a == 8 {
        assert(round_up(x, 8) % 8 == 0);
    } else {
        assert(round_up(x, 16) % 16 == 0);
    }
}

proof fn lemma_entry_sound(entries: Seq<EntryView>, size: nat, align: nat, i: int)
    requires
        is_layout(entries, size, align),
        0 <= i < entries.len(),
    ensures
        entries[i].offset % entries[i].value_type.align_spec() == 0,
        entries[i].offset + entries[i].value_type.size_spec() <= size,
        entries[i].value_type.align_spec() <= align,
{
    let fields = entry_fields(entries);
    let n = fields.len();
    assert(fields[i] == entries[i].field());
    lemma_max_align(fields);
    lemma_no_padding(fields, i as nat);
    lemma_cursor_monotone(fields, i as nat, n);
    lemma_round_up(cursor(fields, n), max_align(fields));
}

proof fn lemma_pair_sound(entries: Seq<EntryView>, size: nat, align: nat, i: int, j: int)
    requires
        is_layout(entries, size, align),
        0 <= i < j < entries.len(),
    ensures
        entries[i].offset + entries[i].value_type.size_spec() <= entries[j].offset,
{
    let fields = entry_fields(entries);
    assert(fields[i] == entries[i].field());
    lemma_no_padding(fields, i as nat);
    lemma_no_padding(fields, j as nat);
    lemma_cursor_monotone(fields, i as nat, j as nat);
}

proof fn lemma_size_sound(entries: Seq<EntryView>, size: nat, align: nat)
    requires
        is_layout(entries, size, align),
    ensures
        entries.len() > 0 ==> entries[0].value_type.align_spec() == align,
        align == 4 || align == 8 || align == 16,
        size % align == 0,
        size <= 16 * entries.len() + 16,
{
    let fields = entry_fields(entries);
    let n = fields.len();
    lemma_max_align(fields);
    if n > 0 {
        lemma_max_align_is_first(fields);
        assert(fields[0] == entries[0].field());
        lemma_no_padding(fields, (n - 1) as nat);
    }
    lemma_round_up(cursor(fields, n), max_align(fields));
}

/// Every layout is well aligned and free of overlap: each offset is a
/// multiple of its field's alignment, a field ends before the next one
/// starts and within the structure, the size is a multiple of the layout's
/// alignment, and that alignment is the largest among the fields.
pub proof fn lemma_layout_sound(entries: Seq<EntryView>, size: nat, align: nat)
    requires
        is_layout(entries, size, align),
    ensures
        forall|i: int|
            0 <= i < entries.len() ==> (#[trigger] entries[i]).offset
                % entries[i].value_type.align_spec() == 0,
        forall|i: int, j: int|
            0 <= i < j < entries.len() ==> (#[trigger] entries[i]).offset
                + entries[i].value_type.size_spec() <= (#[trigger] entries[j]).offset,
        forall|i: int|
            0 <= i < entries.len() ==> (#[trigger] entries[i]).offset
                + entries[i].value_type.size_spec() <= size,
        forall|i: int|
            0 <= i < entries.len() ==> (#[trigger] entries[i]).value_type.align_spec() <= align,
        entries.len() > 0 ==> entries[0].value_type.align_spec() == align,
        align == 4 || align == 8 || align == 16,
        size % align == 0,
        size <= 16 * entries.len() + 16,
{
    assert forall|i: int| 0 <= i < entries.len() implies (#[trigger] entries[i]).offset
        % entries[i].value_type.align_spec() == 0 && entries[i].offset
        + entries[i].value_type.size_spec() <= size && entries[i].value_type.align_spec()
        <= align by {
        lemma_entry_sound(entries, size, align, i);
    }
    assert forall|i: int, j: int| 0 <= i < j < entries.len() implies (#[trigger] entries[i]).offset
        + entries[i].value_type.size_spec() <= (#[trigger] entries[j]).offset by {
        lemma_pair_sound(entries, size, align, i, j);
    }
    lemma_size_sound(entries, size, align);
}

/// A layout depends on the set of its fields only: two layouts of the same
/// fields are equal, in whatever order the fields were given.
pub proof fn lemma_layout_unique(
    entries1: Seq<EntryView>,
    size1: nat,
    align1: nat,
    entries2: Seq<EntryView>,
    size2: nat,
    align2: nat,
)
    requires
        is_layout(entries1, size1, align1),
        is_layout(entries2, size2, align2),
        entry_fields(entries1).to_set() == entry_fields(entries2).to_set(),
    ensures
        entries1 == entries2,
        size1 == size2,
        align1 == align2,
{
    let f1 = entry_fields(entries1);
    let f2 = entry_fields(entries2);
    lemma_canonical_unique(f1, f2);
    assert forall|i: int| 0 <= i < entries1.len() implies entries1[i] == entries2[i] by {
        assert(f1[i] == entries1[i].field());
        assert(f2[i] == entries2[i].field());
    }
    assert(entries1 =~= entries2);
}

/// The names of a layout are the names of the fields it was made from.
pub proof fn lemma_layout_names(entries: Seq<EntryView>, given: Seq<FieldView>, name: Seq<char>)
    requires
        entry_fields(entries).to_set() == given.to_set(),
    ensures
        has_name(entries, name) <==> exists|i: int|
            0 <= i < given.len() && (#[trigger] given[i]).name == name,
{
    let fields = entry_fields(entries);
    if has_name(entries, name) {
        let k = choose|k: int| 0 <= k < entries.len() && (#[trigger] entries[k]).name == name;
        assert(fields[k] == entries[k].field());
        assert(fields.to_set().contains(fields[k]));
        assert(given.contains(fields[k]));
        let i = choose|i: int| 0 <= i < given.len() && given[i] == fields[k];
        assert(given[i].name == name);
    }
    if exists|i: int| 0 <= i < given.len() && (#[trigger] given[i]).name == name {
        let i = choose|i: int| 0 <= i < given.len() && (#[trigger] given[i]).name == name;
        assert(given.to_set().contains(given[i]));
        assert(fields.contains(given[i]));
        let k = choose|k: int| 0 <= k < fields.len() && fields[k] == given[i];
        assert(fields[k] == entries[k].field());
        assert(entries[k].name == name);
    }
}

/// A name has one offset in a layout: entries with the same name are the
/// same entry.
pub proof fn lemma_layout_name_unique(entries: Seq<EntryView>, size: nat, align: nat, i: int, j: int)
    requires
        is_layout(entries, size, align),
        0 <= i < entries.len(),
        0 <= j < entries.len(),
        entries[i].name == entries[j].name,
    ensures
        i == j,
{
    let fields = entry_fields(entries);
    assert(fields[i] == entries[i].field());
    assert(fields[j] == entries[j].field());
    if i < j {
        assert(fields[i].name != fields[j].name);
    } else if j < i {
        assert(fields[j].name != fields[i].name);
    }
}

/// The mathematical value of a [`Layout`].
pub ghost struct LayoutView {
    /// The placed fields, in canonical order.
    pub entries: Seq<EntryView>,
    /// Size of the structure in bytes.
    pub size: nat,
    /// Alignment of the structure in bytes.
    pub align: nat,
}

impl LayoutView {
    /// The fields of the layout, in canonical order.
    pub open spec fn fields(self) -> Seq<FieldView> {
        entry_fields(self.entries)
    }

    /// Validity: see [`is_layout`].
    pub open spec fn wf(self) -> bool {
        is_layout(self.entries, self.size, self.align)
    }
}

/// A layout depends on the set of its fields only: two valid layouts of the
/// same fields are equal.
pub proof fn lemma_layout_view_unique(a: LayoutView, b: LayoutView)
    requires
        a.wf(),
        b.wf(),
        a.fields().to_set() == b.fields().to_set(),
    ensures
        a == b,
{
    lemma_layout_unique(a.entries, a.size, a.align, b.entries, b.size, b.align);
}

/// The layout of a set of fields.
pub struct Layout {
    entries: Vec<LayoutEntry>,
    size: u32,
    align: u32,
}

impl View for Layout {
    type V = LayoutView;

    closed spec fn view(&self) -> LayoutView {
        LayoutView {
            entries: self.entries@.map_values(|e: LayoutEntry| e@),
            size: self.size as nat,
            align: self.align as nat,
        }
    }
}

impl Layout {
    #[verifier::type_invariant]
    spec fn inv(self) -> bool {
        self@.wf()
    }

    /// The layout without fields: size 0, alignment [`MIN_ALIGN`].
    pub fn empty() -> (r: Layout)
        ensures
            r@.wf(),
            r@.entries.len() == 0,
            r@.size == 0,
            r@.align == MIN_ALIGN,
    {
        let r = Layout { entries: Vec::new(), size: 0, align: MIN_ALIGN };
        assert(r@.entries.len() == 0);
        assert(entry_fields(r@.entries).len() == 0);
        r
    }

    /// Lays out a set of fields. The result depends on the set only, not on
    /// the order in which the fields are given.
    pub fn pack(fields: Vec<Field>) -> (r: Layout)
        requires
            distinct_names(field_views(fields@)),
            fields.len() <= MAX_ENTRIES,
        ensures
            r@.wf(),
            r@.fields().to_set() == field_views(fields@).to_set(),
            r@.fields().len() == fields.len(),
    {
        let sorted = sort_fields(fields);
        let ghost fv = field_views(sorted@);
        let mut entries: Vec<LayoutEntry> = Vec::new();
        let mut cur: u32 = 0;
        let mut align: u32 = MIN_ALIGN;
        let mut i: usize = 0;
        proof {
            assert(fv.take(0) =~= Seq::<FieldView>::empty());
        }
        while i < sorted.len()
            invariant
                i <= sorted.len(),
                sorted.len() <= MAX_ENTRIES,
                fv == field_views(sorted@),
                canonical(fv),
                distinct_names(fv),
                entries.len() == i,
                cur == cursor(fv, i as nat),
                cur <= 16 * i,
                align == max_align(fv.take(i as int)),
                forall|j: int|
                    0 <= j < i ==> (#[trigger] entries@[j])@ == (EntryView {
                        name: fv[j].name,
                        value_type: fv[j].value_type,
                        offset: offset_of(fv, j as nat),
                    }),
            decreases sorted.len() - i,
        {
            proof {
                lemma_no_padding(fv, i as nat);
                assert(fv.take(i + 1).drop_last() =~= fv.take(i as int));
                assert(fv.take(i + 1).last() == fv[i as int]);
                lemma_max_align(fv.take(i as int));
            }
            let f = &sorted[i];
            assert(f@ == fv[i as int]);
            let a = f.value_type.align();
            if a > align {
                align = a;
            }
            entries.push(LayoutEntry { name: f.name.clone(), value_type: f.value_type, offset: cur });
            cur = cur + f.value_type.size();
            i += 1;
        }
        proof {
            assert(fv.take(i as int) =~= fv);
            lemma_max_align(fv);
        }
        let size = round_up_to(cur, align);
        proof {
            let ev = entries@.map_values(|e: LayoutEntry| e@);
            assert(entry_fields(ev) =~= fv);
            assert forall|j: int| 0 <= j < ev.len() implies (#[trigger] ev[j]).offset == offset_of(
                fv,
                j as nat,
            ) by {
                assert(entries@[j]@.offset == offset_of(fv, j as nat));
            }
            assert(is_layout(ev, size as nat, align as nat));
        }
        let r = Layout { entries, size, align };
        proof {
            assert(r@.fields() =~= fv);
        }
        r
    }

    /// Number of fields. Every layout that exists at run time is valid.
    pub fn len(&self) -> (r: usize)
        ensures
            r == self@.entries.len(),
            self@.wf(),
    {
        proof {
            use_type_invariant(self);
        }
        self.entries.len()
    }

    /// Whether the layout has no field.
    pub fn is_empty(&self) -> (r: bool)
        ensures
            r == (self@.entries.len() == 0),
    {
        self.entries.len() == 0
    }

    /// Size of the structure in bytes: a multiple of [`Layout::align`].
    pub fn size(&self) -> (r: u32)
        ensures
            r == self@.size,
    {
        self.size
    }

    /// Alignment of the structure in bytes.
    pub fn align(&self) -> (r: u32)
        ensures
            r == self@.align,
    {
        self.align
    }

    /// The entry at position `i` of the canonical order.
    pub fn entry(&self, i: usize) -> (r: &LayoutEntry)
        requires
            i < self@.entries.len(),
        ensures
            r@ == self@.entries[i as int],
    {
        &self.entries[i]
    }

    /// The position of the field called `name`, if there is one.
    pub fn find(&self, name: &str) -> (r: Option<usize>)
        ensures
            r is Some <==> has_name(self@.entries, name@),
            r matches Some(i) ==> i < self@.entries.len() && self@.entries[i as int].name
                == name@,
    {
        let mut i: usize = 0;
        while i < self.entries.len()
            invariant
                i <= self.entries.len(),
                forall|j: int| 0 <= j < i ==> (#[trigger] self@.entries[j]).name != name@,
            decreases self.entries.len() - i,
        {
            if str_eq(self.entries[i].name.as_str(), name) {
                assert(self@.entries[i as int].name == name@);
                return Some(i);
            }
            i += 1;
        }
        None
    }

    /// Whether the layout has a field called `name`.
    pub fn contains(&self, name: &str) -> (r: bool)
        ensures
            r == has_name(self@.entries, name@),
    {
        self.find(name).is_some()
    }

    /// The offset of the field called `name`, or `None` where the layout has
    /// no such field.
    pub fn offset(&self, name: &str) -> (r: Option<u32>)
        ensures
            r is Some <==> has_name(self@.entries, name@),
            r matches Some(o) ==> has_offset(self@.entries, name@, o as nat),
    {
        match self.find(name) {
            Some(i) => {
                assert(self@.entries[i as int].offset == self.entries[i as int].offset);
                Some(self.entries[i].offset)
            },
            None => None,
        }
    }

    /// The type of the field called `name`, or `None` where the layout has
    /// no such field.
    pub fn value_type(&self, name: &str) -> (r: Option<ValueType>)
        ensures
            r is Some <==> has_name(self@.entries, name@),
            r matches Some(t) ==> has_type(self@.entries, name@, t),
    {
        match self.find(name) {
            Some(i) => {
                assert(self@.entries[i as int].value_type == self.entries[i as int].value_type);
                Some(self.entries[i].value_type)
            },
            None => None,
        }
    }
}

/// The smallest multiple of `a` that is at least `x`.
fn round_up_to(x: u32, a: u32) -> (r: u32)
    requires
        a == 4 || a == 8 || a == 16,
        x <= 0x8000_0000,
    ensures
        r == round_up(x as nat, a as nat),
{
    if x % a == 0 {
        x
    } else {
        x + (a - x % a)
    }
}

/// Whether `a` stands before `b` in the canonical order.
fn field_precedes(a: &Field, b: &Field) -> (r: bool)
    ensures
        r == precedes(a@, b@),
{
    let x = a.value_type.align();
    let y = b.value_type.align();
    x > y || (x == y && str_lt(a.name.as_str(), b.name.as_str()))
}

/// Inserts a field into a sequence in canonical order, at its place.
fn insert_field(sorted: &mut Vec<Field>, f: Field)
    requires
        canonical(field_views(old(sorted)@)),
        forall|i: int|
            0 <= i < old(sorted).len() ==> (#[trigger] field_views(old(sorted)@)[i]).name != f@.name,
    ensures
        canonical(field_views(final(sorted)@)),
        final(sorted).len() == old(sorted).len() + 1,
        field_views(final(sorted)@).to_set() == field_views(old(sorted)@).to_set().insert(f@),
{
    let ghost before = field_views(sorted@);
    let mut pos: usize = 0;
    while pos < sorted.len() && field_precedes(&sorted[pos], &f)
        invariant
            pos <= sorted.len(),
            sorted@ == old(sorted)@,
            before == field_views(sorted@),
            forall|i: int| 0 <= i < pos ==> precedes(#[trigger] before[i], f@),
        decreases sorted.len() - pos,
    {
        pos += 1;
    }
    sorted.insert(pos, f);
    proof {
        let after = field_views(sorted@);
        old(sorted)@.insert_ensures(pos as int, f);
        assert(after.len() == before.len() + 1);
        assert(after[pos as int] == f@);
        assert forall|i: int| 0 <= i < pos implies after[i] == before[i] by {}
        assert forall|i: int| pos <= i < before.len() implies after[i + 1] == before[i] by {}
        assert forall|j: int| pos <= j < before.len() implies precedes(f@, #[trigger] before[j]) by {
            assert(!precedes(before[pos as int], f@));
            assert(before[pos as int].name != f@.name);
            lemma_precedes_total(f@, before[pos as int]);
            if j > pos {
                assert(precedes(before[pos as int], before[j]));
                lemma_precedes_transitive(f@, before[pos as int], before[j]);
            }
        }
        assert forall|i: int, j: int| 0 <= i < j < after.len() implies precedes(
            #[trigger] after[i],
            #[trigger] after[j],
        ) by {
            if j < pos {
                assert(precedes(before[i], before[j]));
            } else if j == pos {
                assert(precedes(before[i], f@));
            } else if i < pos {
                assert(after[j] == before[j - 1]);
                assert(precedes(before[i], before[j - 1]));
            } else if i == pos {
                assert(after[j] == before[j - 1]);
                assert(precedes(f@, before[j - 1]));
            } else {
                assert(after[i] == before[i - 1]);
                assert(after[j] == before[j - 1]);
                assert(precedes(before[i - 1], before[j - 1]));
            }
        }
        assert forall|x: FieldView| after.to_set().contains(x) <==> before.to_set().insert(
            f@,
        ).contains(x) by {
            if after.contains(x) {
                let i = choose|i: int| 0 <= i < after.len() && after[i] == x;
                if i < pos {
                    assert(before[i] == x);
                } else if i > pos {
                    assert(after[i] == before[i - 1]);
                    assert(before[i - 1] == x);
                }
            }
            if before.contains(x) {
                let i = choose|i: int| 0 <= i < before.len() && before[i] == x;
                if i < pos {
                    assert(after[i] == x);
                } else {
                    assert(after[i + 1] == x);
                }
            }
        }
        assert(after.to_set() =~= before.to_set().insert(f@));
    }
}

/// Puts a set of fields in canonical order.
fn sort_fields(fields: Vec<Field>) -> (r: Vec<Field>)
    requires
        distinct_names(field_views(fields@)),
    ensures
        canonical(field_views(r@)),
        distinct_names(field_views(r@)),
        r.len() == fields.len(),
        field_views(r@).to_set() == field_views(fields@).to_set(),
{
    let ghost input = field_views(fields@);
    let mut rest = fields;
    let mut sorted: Vec<Field> = Vec::new();
    proof {
        assert(field_views(sorted@).to_set() =~= Set::<FieldView>::empty());
        assert(input.skip(0) =~= input);
    }
    while rest.len() > 0
        invariant
            canonical(field_views(sorted@)),
            distinct_names(input),
            rest.len() <= input.len(),
            field_views(rest@) == input.take(rest.len() as int),
            sorted.len() + rest.len() == input.len(),
            field_views(sorted@).to_set() == input.skip(rest.len() as int).to_set(),
        decreases rest.len(),
    {
        let ghost n = rest.len() as int;
        let ghost prev = rest@;
        let ghost done = field_views(sorted@);
        let f = rest.pop().unwrap();
        proof {
            assert(field_views(prev)[n - 1] == f@);
            assert(f@ == input[n - 1]);
            assert(field_views(rest@) =~= input.take(n - 1)) by {
                assert forall|k: int| 0 <= k < n - 1 implies field_views(rest@)[k] == input.take(
                    n - 1,
                )[k] by {
                    assert(field_views(prev)[k] == input.take(n)[k]);
                }
            }
            let hi = input.skip(n);
            let lo = input.skip(n - 1);
            assert forall|i: int| 0 <= i < done.len() implies (#[trigger] done[i]).name
                != f@.name by {
                assert(done.to_set().contains(done[i]));
                assert(hi.contains(done[i]));
                let k = choose|k: int| 0 <= k < hi.len() && hi[k] == done[i];
                assert(input[n + k] == done[i]);
                assert(input[n - 1].name != input[n + k].name);
            }
            assert(hi.to_set().insert(f@) =~= lo.to_set()) by {
                assert forall|x: FieldView|
                    hi.to_set().insert(f@).contains(x) <==> lo.to_set().contains(x) by {
                    if hi.contains(x) {
                        let k = choose|k: int| 0 <= k < hi.len() && hi[k] == x;
                        assert(lo[k + 1] == x);
                    }
                    if x == f@ {
                        assert(lo[0] == x);
                    }
                    if lo.contains(x) {
                        let k = choose|k: int| 0 <= k < lo.len() && lo[k] == x;
                        if k > 0 {
                            assert(hi[k - 1] == x);
                        }
                    }
                }
            }
        }
        insert_field(&mut sorted, f);
    }
    proof {
        assert(input.skip(0) =~= input);
        lemma_canonical_distinct(field_views(sorted@));
        lemma_distinct_names_carry(input, field_views(sorted@));
    }
    sorted
}

} // verus!

//! The layout of a particle: the attributes that an effect stores for each
//! of its particles.

use vstd::prelude::*;
use vstd::string::*;
use vstd::set_lib::*;
use crate::attribute::{Attribute, ATTRIBUTE_COUNT};
use crate::layout::{
    distinct_names, field_views, has_name, has_offset, Field, FieldView, Layout, LayoutView, MIN_ALIGN,
};
use crate::text::owned;

verus! {

/// The field that holds an attribute in the particle structure.
pub open spec fn attribute_field(attribute: Attribute) -> FieldView {
    FieldView { name: attribute.name_spec(), value_type: attribute.value_type_spec() }
}

/// The fields that hold a sequence of attributes.
pub open spec fn attribute_fields(attributes: Seq<Attribute>) -> Seq<FieldView> {
    attributes.map_values(|a: Attribute| attribute_field(a))
}

/// A sequence of attributes without repetition has at most
/// [`ATTRIBUTE_COUNT`] members, and its fields have distinct names.
pub proof fn lemma_attributes_bounded(attributes: Seq<Attribute>)
    requires
        attributes.no_duplicates(),
    ensures
        attributes.len() <= ATTRIBUTE_COUNT,
        distinct_names(attribute_fields(attributes)),
{
    let ids = attributes.map_values(|a: Attribute| a.id_spec() as int);
    assert forall|i: int, j: int| 0 <= i < ids.len() && 0 <= j < ids.len() && i != j implies ids[i]
        != ids[j] by {
        assert(attributes[i] != attributes[j]);
    }
    ids.unique_seq_to_set();
    lemma_int_range(0, ATTRIBUTE_COUNT as int);
    assert(ids.to_set().subset_of(set_int_range(0, ATTRIBUTE_COUNT as int))) by {
        assert forall|x: int| ids.to_set().contains(x) implies set_int_range(
            0,
            ATTRIBUTE_COUNT as int,
        ).contains(x) by {
            let i = choose|i: int| 0 <= i < ids.len() && ids[i] == x;
            assert(ids[i] == attributes[i].id_spec());
        }
    }
    lemma_len_subset(ids.to_set(), set_int_range(0, ATTRIBUTE_COUNT as int));
    let fields = attribute_fields(attributes);
    assert forall|i: int, j: int| 0 <= i < j < fields.len() implies (#[trigger] fields[i]).name != (
    #[trigger] fields[j]).name by {
        if attributes[i].name_spec() == attributes[j].name_spec() {
            Attribute::lemma_name_identifies(attributes[i], attributes[j]);
        }
    }
}

/// Collects the attributes of a particle layout.
pub struct ParticleLayoutBuilder {
    attributes: Vec<Attribute>,
}

impl ParticleLayoutBuilder {
    /// The attributes collected so far.
    pub closed spec fn attributes(self) -> Set<Attribute> {
        self.attributes@.to_set()
    }

    #[verifier::type_invariant]
    spec fn inv(self) -> bool {
        self.attributes@.no_duplicates()
    }

    /// Adds an attribute; one that is already present is not added again.
    pub fn append(self, attribute: Attribute) -> (r: ParticleLayoutBuilder)
        ensures
            r.attributes() == self.attributes().insert(attribute),
    {
        proof {
            use_type_invariant(&self);
        }
        let mut attributes = self.attributes;
        let ghost before = attributes@;
        let mut i: usize = 0;
        while i < attributes.len()
            invariant
                i <= attributes.len(),
                attributes@ == before,
                before == self.attributes@,
                before.no_duplicates(),
                forall|j: int| 0 <= j < i ==> before[j] != attribute,
            decreases attributes.len() - i,
        {
            if attributes[i] == attribute {
                assert(before.to_set().insert(attribute) =~= before.to_set()) by {
                    assert(before.contains(attribute));
                }
                return ParticleLayoutBuilder { attributes };
            }
            i += 1;
        }
        attributes.push(attribute);
        proof {
            before.lemma_push_to_set_commute(attribute);
            assert(!before.contains(attribute));
            assert(attributes@.no_duplicates());
        }
        ParticleLayoutBuilder { attributes }
    }

    /// Lays out the collected attributes. The result depends on the set of
    /// attributes only, not on the order in which they were added.
    pub fn build(self) -> (r: ParticleLayout)
        ensures
            r@.wf(),
            r@.fields().to_set() == self.attributes().map(|a: Attribute| attribute_field(a)),
            forall|a: Attribute|
                has_name(r@.entries, #[trigger] a.name_spec()) <==> self.attributes().contains(a),
    {
        proof {
            use_type_invariant(&self);
            lemma_attributes_bounded(self.attributes@);
        }
        let ghost views = attribute_fields(self.attributes@);
        let mut fields: Vec<Field> = Vec::new();
        let mut i: usize = 0;
        while i < self.attributes.len()
            invariant
                i <= self.attributes.len(),
                fields.len() == i,
                views == attribute_fields(self.attributes@),
                forall|j: int| 0 <= j < i ==> (#[trigger] fields@[j])@ == views[j],
            decreases self.attributes.len() - i,
        {
            let a = self.attributes[i];
            fields.push(Field { name: owned(a.name()), value_type: a.value_type() });
            i += 1;
        }
        assert(field_views(fields@) =~= views);
        let layout = Layout::pack(fields);
        proof {
            let set = self.attributes();
            let mapped = set.map(|a: Attribute| attribute_field(a));
            assert(views.to_set() =~= mapped) by {
                assert forall|x: FieldView| views.to_set().contains(x) <==> mapped.contains(x) by {
                    if views.contains(x) {
                        let k = choose|k: int| 0 <= k < views.len() && views[k] == x;
                        assert(set.contains(self.attributes@[k]));
                        assert(attribute_field(self.attributes@[k]) == x);
                    }
                    if mapped.contains(x) {
                        let a = choose|a: Attribute| set.contains(a) && attribute_field(a) == x;
                        let k = choose|k: int|
                            0 <= k < self.attributes@.len() && self.attributes@[k] == a;
                        assert(views[k] == x);
                    }
                }
            }
            let entries = layout@.entries;
            let placed = layout@.fields();
            assert forall|a: Attribute|
                has_name(entries, #[trigger] a.name_spec()) <==> set.contains(a) by {
                if has_name(entries, a.name_spec()) {
                    let k = choose|k: int|
                        0 <= k < entries.len() && (#[trigger] entries[k]).name == a.name_spec();
                    assert(placed[k] == entries[k].field());
                    assert(placed.to_set().contains(placed[k]));
                    assert(mapped.contains(placed[k]));
                    let b = choose|b: Attribute| set.contains(b) && attribute_field(b) == placed[k];
                    Attribute::lemma_name_identifies(a, b);
                }
                if set.contains(a) {
                    assert(mapped.contains(attribute_field(a)));
                    assert(placed.contains(attribute_field(a)));
                    let k = choose|k: int|
                        0 <= k < placed.len() && placed[k] == attribute_field(a);
                    assert(placed[k] == entries[k].field());
                    assert(entries[k].name == a.name_spec());
                }
            }
        }
        ParticleLayout { layout }
    }
}

/// The layout of the attributes of a particle.
pub struct ParticleLayout {
    layout: Layout,
}

impl View for ParticleLayout {
    type V = LayoutView;

    closed spec fn view(&self) -> LayoutView {
        self.layout@
    }
}

impl ParticleLayout {
    /// Starts a layout without attributes.
    pub fn new() -> (r: ParticleLayoutBuilder)
        ensures
            r.attributes() == Set::<Attribute>::empty(),
    {
        let r = ParticleLayoutBuilder { attributes: Vec::new() };
        assert(r.attributes() =~= Set::<Attribute>::empty());
        r
    }

    /// Whether the layout holds the attribute.
    pub fn contains(&self, attribute: Attribute) -> (r: bool)
        ensures
            r == has_name(self@.entries, attribute.name_spec()),
    {
        self.layout.contains(attribute.name())
    }

    /// The offset of the attribute in the particle structure, or `None`
    /// where the layout does not hold it.
    pub fn offset(&self, attribute: Attribute) -> (r: Option<u32>)
        ensures
            r is Some <==> has_name(self@.entries, attribute.name_spec()),
            r matches Some(o) ==> has_offset(self@.entries, attribute.name_spec(), o as nat),
    {
        self.layout.offset(attribute.name())
    }

    /// Size of the particle structure in bytes.
    pub fn size(&self) -> (r: u32)
        ensures
            r == self@.size,
    {
        self.layout.size()
    }

    /// Alignment of the particle structure in bytes.
    pub fn align(&self) -> (r: u32)
        ensures
            r == self@.align,
    {
        self.layout.align()
    }

    /// The underlying layout.
    pub fn layout(&self) -> (r: &Layout)
        ensures
            r@ == self@,
            r@.wf(),
    {
        let _ = self.layout.len();
        &self.layout
    }
}

impl Default for ParticleLayout {
    /// The layout without attributes: size 0, alignment [`MIN_ALIGN`].
    fn default() -> (r: ParticleLayout)
        ensures
            r@.wf(),
            r@.entries.len() == 0,
            r@.size == 0,
            r@.align == MIN_ALIGN,
    {
        ParticleLayout { layout: Layout::empty() }
    }
}

} // verus!

//! Properties of an effect and their layout.

use vstd::prelude::*;
use vstd::string::*;
use crate::layout::{
    distinct_names, field_views, has_name, has_offset, has_type, Field, FieldView, Layout, LayoutView, MAX_ENTRIES, MIN_ALIGN,
};
use crate::text::owned;
use crate::value::{Value, ValueType};

verus! {

/// A named value of an effect, set from outside and read by expressions.
#[derive(Debug, PartialEq, Eq, Hash)]
pub struct Property {
    name: String,
    default_value: Value,
}

impl Property {
    /// The name of the property.
    pub closed spec fn name_spec(self) -> Seq<char> {
        self.name@
    }

    /// The value of the property until it is set.
    pub closed spec fn default_value_spec(self) -> Value {
        self.default_value
    }

    /// The field that holds the property in the property structure.
    pub open spec fn field(self) -> FieldView {
        FieldView { name: self.name_spec(), value_type: self.default_value_spec().value_type_spec() }
    }

    /// A property called `name` with the given default value.
    pub fn new(name: &str, default_value: Value) -> (r: Property)
        ensures
            r.name_spec() == name@,
            r.default_value_spec() == default_value,
    {
        Property { name: owned(name), default_value }
    }

    /// The name of the property.
    pub fn name(&self) -> (r: &str)
        ensures
            r@ == self.name_spec(),
    {
        self.name.as_str()
    }

    /// The value of the property until it is set.
    pub fn default_value(&self) -> (r: &Value)
        ensures
            *r == self.default_value_spec(),
    {
        &self.default_value
    }

    /// The type of the property.
    pub fn value_type(&self) -> (r: ValueType)
        ensures
            r == self.field().value_type,
    {
        self.default_value.value_type()
    }

    /// The size of the property in bytes.
    pub fn size(&self) -> (r: u32)
        ensures
            r == self.field().value_type.size_spec(),
    {
        self.default_value.value_type().size()
    }
}

impl Clone for Property {
    fn clone(&self) -> (r: Property)
        ensures
            r == *self,
    {
        Property { name: self.name.clone(), default_value: self.default_value }
    }
}

/// The fields that hold a sequence of properties.
pub open spec fn property_fields(properties: Seq<Property>) -> Seq<FieldView> {
    properties.map_values(|p: Property| p.field())
}

/// The layout of the properties of an effect.
pub struct PropertyLayout {
    layout: Layout,
}

impl View for PropertyLayout {
    type V = LayoutView;

    closed spec fn view(&self) -> LayoutView {
        self.layout@
    }
}

impl PropertyLayout {
    /// Lays out a set of properties. The result depends on the set only, not
    /// on the order of `properties`.
    pub fn new(properties: &Vec<Property>) -> (r: PropertyLayout)
        requires
            distinct_names(property_fields(properties@)),
            properties.len() <= MAX_ENTRIES,
        ensures
            r@.wf(),
            r@.fields().to_set() == property_fields(properties@).to_set(),
            r@.fields().len() == properties.len(),
    {
        let mut fields: Vec<Field> = Vec::new();
        let mut i: usize = 0;
        while i < properties.len()
            invariant
                i <= properties.len(),
                fields.len() == i,
                forall|j: int|
                    0 <= j < i ==> (#[trigger] fields@[j])@ == property_fields(properties@)[j],
            decreases properties.len() - i,
        {
            let p = &properties[i];
            fields.push(Field { name: owned(p.name()), value_type: p.value_type() });
            i += 1;
        }
        assert(field_views(fields@) =~= property_fields(properties@));
        PropertyLayout { layout: Layout::pack(fields) }
    }

    /// Whether the layout has no property.
    pub fn is_empty(&self) -> (r: bool)
        ensures
            r == (self@.entries.len() == 0),
    {
        self.layout.is_empty()
    }

    /// Size of the property structure in bytes.
    pub fn size(&self) -> (r: u32)
        ensures
            r == self@.size,
    {
        self.layout.size()
    }

    /// Alignment of the property structure in bytes.
    pub fn align(&self) -> (r: u32)
        ensures
            r == self@.align,
    {
        self.layout.align()
    }

    /// Whether the layout has a property called `name`.
    pub fn contains(&self, name: &str) -> (r: bool)
        ensures
            r == has_name(self@.entries, name@),
    {
        self.layout.contains(name)
    }

    /// The offset assigned to the property called `name`, or `None` where no
    /// property of that name was laid out.
    pub fn offset(&self, name: &str) -> (r: Option<u32>)
        ensures
            r is Some <==> has_name(self@.entries, name@),
            r matches Some(o) ==> has_offset(self@.entries, name@, o as nat),
    {
        self.layout.offset(name)
    }

    /// The type of the property called `name`, if the layout has it.
    pub fn value_type(&self, name: &str) -> (r: Option<ValueType>)
        ensures
            r is Some <==> has_name(self@.entries, name@),
            r matches Some(t) ==> has_type(self@.entries, name@, t),
    {
        self.layout.value_type(name)
    }

    /// The underlying layout.
    pub fn layout(&self) -> (r: &Layout)
        ensures
            r@ == self@,
            r@.wf(),
    {
        let _ = self.layout.len();
        &self.layout
    }
}

impl Default for PropertyLayout {
    /// The layout without properties: size 0, alignment [`MIN_ALIGN`].
    fn default() -> (r: PropertyLayout)
        ensures
            r@.wf(),
            r@.entries.len() == 0,
            r@.size == 0,
            r@.align == MIN_ALIGN,
    {
        PropertyLayout { layout: Layout::empty() }
    }
}

} // verus!

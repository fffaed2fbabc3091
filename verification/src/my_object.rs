use crate::qstring::QString;
use cxx_qt_lib::MapQtValue;
use vstd::prelude::*;

verus! {

/// Identifies one bound property of the object. There is one identifier per
/// getter and setter pair of `CppObj`.
#[derive(Clone, Copy, Debug, PartialEq, Eq, Structural)]
pub enum Property {
    Number,
    String,
}

/// A snapshot as contracts see it: one value per bound property.
pub struct DataView {
    pub number: i32,
    pub string: Seq<char>,
}

impl DataView {
    /// The snapshot that a new object is seeded with.
    pub open spec fn default_value() -> DataView {
        DataView { number: 0, string: Seq::empty() }
    }
}

/// A native object as contracts see it: the value of each bound property, and
/// the properties that were written through a setter, oldest first.
pub struct CppObjView {
    pub number: i32,
    pub string: Seq<char>,
    pub writes: Seq<Property>,
}

impl CppObjView {
    /// The object after its number setter ran with `value`.
    pub open spec fn with_number(self, value: i32) -> CppObjView {
        CppObjView {
            number: value,
            string: self.string,
            writes: self.writes.push(Property::Number),
        }
    }

    /// The object after its string setter ran with `value`.
    pub open spec fn with_string(self, value: Seq<char>) -> CppObjView {
        CppObjView {
            number: self.number,
            string: value,
            writes: self.writes.push(Property::String),
        }
    }

    /// The object after every field of `data` went through its setter: the
    /// number first, then the string.
    pub open spec fn apply(self, data: DataView) -> CppObjView {
        self.with_number(data.number).with_string(data.string)
    }

    /// The snapshot that reading every bound property gives.
    pub open spec fn snapshot(self) -> DataView {
        DataView { number: self.number, string: self.string }
    }
}

/// The native object: it owns the bound properties, and is only ever changed
/// in place, through its setters.
///
/// Besides the property values it keeps the list of properties written so
/// far. That list is what the native side acts on when it reports changes, so
/// the order of the writes is part of every contract here.
pub struct CppObj {
    number: i32,
    string: QString,
    writes: Vec<Property>,
}

impl View for CppObj {
    type V = CppObjView;

    closed spec fn view(&self) -> CppObjView {
        CppObjView { number: self.number, string: self.string@, writes: self.writes@ }
    }
}

impl CppObj {
    /// The native string that `string` hands out.
    pub closed spec fn spec_string(&self) -> QString {
        self.string
    }

    /// An object that holds the given property values and has seen no write.
    pub fn new(number: i32, string: QString) -> (cpp: CppObj)
        ensures
            cpp@ == (CppObjView { number, string: string@, writes: Seq::empty() }),
    {
        CppObj { number, string, writes: Vec::new() }
    }

    pub fn number(&self) -> (value: i32)
        ensures
            value == self@.number,
    {
        self.number
    }

    pub fn set_number(&mut self, value: i32)
        ensures
            final(self)@ == old(self)@.with_number(value),
    {
        self.number = value;
        self.writes.push(Property::Number);
    }

    pub fn string(&self) -> (value: &QString)
        ensures
            *value == self.spec_string(),
            value@ == self@.string,
    {
        &self.string
    }

    pub fn set_string(&mut self, value: &QString)
        ensures
            final(self)@ == old(self)@.with_string(value@),
    {
        self.string.assign(value);
        self.writes.push(Property::String);
    }

    /// The properties written so far, oldest first.
    pub fn writes(&self) -> (writes: &Vec<Property>)
        ensures
            writes@ == self@.writes,
    {
        &self.writes
    }
}

/// Typed access to one native object for the length of one callback. It holds
/// the only exclusive reference to the object while it lives.
///
/// The view of a wrapper is the view of the object it points at. Every method
/// that takes the wrapper by `&mut` also states that the wrapper still points
/// at the same object afterwards, so that what it did is known of the object
/// once the wrapper is gone.
pub struct CppObjWrapper<'a> {
    pub cpp: &'a mut CppObj,
}

impl<'a> View for CppObjWrapper<'a> {
    type V = CppObjView;

    open spec fn view(&self) -> CppObjView {
        (*self.cpp)@
    }
}

/// The snapshot: an owned value for every bound property, never partly
/// filled.
#[derive(Clone, Debug, PartialEq, Eq)]
pub struct Data {
    pub number: i32,
    pub string: String,
}

impl View for Data {
    type V = DataView;

    open spec fn view(&self) -> DataView {
        DataView { number: self.number, string: self.string@ }
    }
}

impl Default for Data {
    fn default() -> (data: Self)
        ensures
            data@ == DataView::default_value(),
    {
        Data { number: 0, string: String::new() }
    }
}

/// Hands the number to the object's setter by way of
/// `cxx_qt_lib::MapQtValue::map_qt_value`.
///
/// For an `i32` that method calls the function it is given once, with the
/// context and the number itself, and returns what the function returned. The
/// function given here is `CppObjWrapper::set_number`, so the contract is the
/// one of that setter.
#[verifier::external_body]
fn map_number(value: &i32, context: &mut CppObjWrapper<'_>)
    ensures
        final(context)@ == old(context)@.with_number(*value),
        *final(final(context).cpp) == *final(old(context).cpp),
{
    value.map_qt_value(CppObjWrapper::set_number, context)
}

impl<'a> CppObjWrapper<'a> {
    /// The native string that `string` hands out.
    pub open spec fn spec_string(&self) -> QString {
        (*self.cpp).spec_string()
    }

    /// Wraps the object. Nothing is read or checked.
    pub fn new(cpp: &'a mut CppObj) -> (wrapper: Self)
        ensures
            wrapper@ == old(cpp)@,
            *final(wrapper.cpp) == *final(cpp),
    {
        Self { cpp }
    }

    pub fn number(&self) -> (value: i32)
        ensures
            value == self@.number,
    {
        self.cpp.number()
    }

    pub fn set_number(&mut self, value: i32)
        ensures
            final(self)@ == old(self)@.with_number(value),
            *final(final(self).cpp) == *final(old(self).cpp),
    {
        self.cpp.set_number(value);
    }

    pub fn string(&self) -> (value: &QString)
        ensures
            *value == self.spec_string(),
            value@ == self@.string,
    {
        self.cpp.string()
    }

    pub fn set_string(&mut self, value: &QString)
        ensures
            final(self)@ == old(self)@.with_string(value@),
            *final(final(self).cpp) == *final(old(self).cpp),
    {
        self.cpp.set_string(value);
    }

    /// Pushes every field of `data` into the object through its setter, each
    /// converted to what the setter takes: first the number, then the string,
    /// in that order on every call.
    pub fn grab_values_from_data(&mut self, data: &Data)
        ensures
            final(self)@ == old(self)@.apply(data@),
            *final(final(self).cpp) == *final(old(self).cpp),
    {
        map_number(&data.number, self);
        let converted = QString::from_rust(data.string.as_str());
        self.set_string(&converted);
    }
}

impl<'a> From<&CppObjWrapper<'a>> for Data {
    /// Reads every bound property through the wrapper into an owned
    /// snapshot. The object is not changed.
    fn from(value: &CppObjWrapper<'a>) -> (data: Self)
        ensures
            data@ == value@.snapshot(),
    {
        Data { number: value.number(), string: value.string().to_rust() }
    }
}

impl<'a> vstd::std_specs::convert::FromSpecImpl<&CppObjWrapper<'a>> for Data {
    open spec fn obeys_from_spec() -> bool {
        true
    }

    open spec fn from_spec(value: &CppObjWrapper<'a>) -> Data {
        Data { number: value@.number, string: value.spec_string().spec_to_rust() }
    }
}

/// What the given deliveries look like once `property` was delivered too.
pub open spec fn delivered_after(delivered: Seq<Property>, property: Property) -> Seq<Property> {
    delivered.push(property)
}

/// What the given deliveries look like once each of `changes` was delivered,
/// one dispatch per change, first to last.
pub open spec fn delivered_after_all(delivered: Seq<Property>, changes: Seq<Property>) -> Seq<
    Property,
>
    decreases changes.len(),
{
    if changes.len() == 0 {
        delivered
    } else {
        delivered_after_all(delivered_after(delivered, changes.first()), changes.drop_first())
    }
}

/// The managed companion of one native object. This one does nothing to the
/// object: it only keeps the identifiers that were delivered to it, oldest
/// first, so that deliveries can be observed.
///
/// The view is that list.
#[derive(Debug)]
pub struct RustObj {
    delivered: Vec<Property>,
}

impl View for RustObj {
    type V = Seq<Property>;

    closed spec fn view(&self) -> Seq<Property> {
        self.delivered@
    }
}

impl Default for RustObj {
    fn default() -> (companion: Self)
        ensures
            companion@ == Seq::<Property>::empty(),
    {
        RustObj { delivered: Vec::new() }
    }
}

impl RustObj {
    /// The entry point that the native side calls when `property` of `cpp`
    /// has changed. It hands the change to the handler once, and returns.
    /// Nothing is queued and nothing is retried.
    pub fn call_handle_property_change(&mut self, cpp: &mut CppObj, property: Property)
        ensures
            final(self)@ == delivered_after(old(self)@, property),
            *final(cpp) == *old(cpp),
    {
        self.handle_property_change(cpp, property);
    }

    /// The handler: notes which property changed and leaves the object as it
    /// is.
    pub fn handle_property_change(&mut self, _cpp: &mut CppObj, property: Property)
        ensures
            final(self)@ == delivered_after(old(self)@, property),
            *final(_cpp) == *old(_cpp),
    {
        self.delivered.push(property);
    }

    /// The identifiers delivered so far, oldest first.
    pub fn delivered(&self) -> (delivered: &Vec<Property>)
        ensures
            delivered@ == self@,
    {
        &self.delivered
    }
}

/// A new companion, to which nothing was delivered yet. It needs no native
/// object: the two are made apart and linked afterwards.
pub fn create_my_object_rs() -> (companion: Box<RustObj>)
    ensures
        (*companion)@ == Seq::<Property>::empty(),
{
    Box::new(RustObj::default())
}

/// Seeds a newly linked object: wraps it and pushes the default snapshot into
/// it, so that every bound property holds its default whatever the object
/// held before. Nothing is delivered to the companion on the way: the writes
/// are recorded in the object, and reporting them is left to the native side.
pub fn initialise_my_object_cpp(cpp: &mut CppObj)
    ensures
        final(cpp)@ == old(cpp)@.apply(DataView::default_value()),
{
    let mut wrapper = CppObjWrapper::new(cpp);
    wrapper.grab_values_from_data(&Data::default());
}

/// A setter followed by its getter gives back the value that was set, for
/// every value of the property's type, and the other property keeps its
/// value.
pub proof fn lemma_set_then_get(cpp: CppObjView, number: i32, string: Seq<char>)
    ensures
        cpp.with_number(number).number == number,
        cpp.with_number(number).string == cpp.string,
        cpp.with_string(string).string == string,
        cpp.with_string(string).number == cpp.number,
{
}

/// A snapshot taken right after `data` was pushed into an object is `data`,
/// whatever the object held before.
pub proof fn lemma_apply_then_snapshot(cpp: CppObjView, data: DataView)
    ensures
        cpp.apply(data).snapshot() == data,
{
}

/// Pushing a snapshot writes each bound property once: the number, then the
/// string.
pub proof fn lemma_apply_writes(cpp: CppObjView, data: DataView)
    ensures
        cpp.apply(data).writes == cpp.writes + seq![Property::Number, Property::String],
{
    assert(cpp.apply(data).writes =~= cpp.writes + seq![Property::Number, Property::String]);
}

/// A seeded object that nothing else has touched yet gives the default
/// snapshot.
pub proof fn lemma_seeded_is_default(cpp: CppObjView)
    ensures
        cpp.apply(DataView::default_value()).snapshot() == DataView::default_value(),
{
}

/// One dispatch per change, in the order of the changes: after `changes` were
/// dispatched one by one, the deliveries are the earlier ones followed by
/// exactly `changes`.
pub proof fn lemma_dispatch_in_order(delivered: Seq<Property>, changes: Seq<Property>)
    ensures
        delivered_after_all(delivered, changes) == delivered + changes,
    decreases changes.len(),
{
    if changes.len() == 0 {
        assert(delivered + changes =~= delivered);
    } else {
        lemma_dispatch_in_order(delivered_after(delivered, changes.first()), changes.drop_first());
        assert(delivered.push(changes.first()) + changes.drop_first() =~= delivered + changes);
    }
}

} // verus!

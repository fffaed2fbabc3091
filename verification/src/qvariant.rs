use vstd::prelude::*;

verus! {

/// A value of one of several types on the managed side: the closed set of
/// cases that can cross the bridge.
#[derive(Debug, PartialEq, Eq)]
pub enum Variant {
    String(String),
    Int(i32),
    Bool(bool),
}

/// A managed variant as contracts see it.
pub enum VariantView {
    String(Seq<char>),
    Int(i32),
    Bool(bool),
}

impl View for Variant {
    type V = VariantView;

    open spec fn view(&self) -> VariantView {
        match self {
            Variant::String(s) => VariantView::String(s@),
            Variant::Int(i) => VariantView::Int(*i),
            Variant::Bool(b) => VariantView::Bool(*b),
        }
    }
}

impl Clone for Variant {
    fn clone(&self) -> (copy: Self)
        ensures
            copy@ == self@,
    {
        match self {
            Variant::String(s) => Variant::String(s.clone()),
            Variant::Int(i) => Variant::Int(*i),
            Variant::Bool(b) => Variant::Bool(*b),
        }
    }
}

/// The type tag that a native variant carries at run time. Whatever the
/// native side holds that is none of the three known types is `Unsupported`.
#[derive(Clone, Copy, Debug, PartialEq, Eq, Structural)]
pub enum QVariantType {
    Unsupported,
    String,
    Int,
    Bool,
}

/// A native variant: the type tag, and the payload that belongs to the tag.
///
/// The view is the managed variant that the native one stands for, if it
/// stands for one.
#[derive(Debug)]
pub struct QVariant {
    tag: QVariantType,
    text: String,
    number: i32,
    flag: bool,
}

impl View for QVariant {
    type V = Option<VariantView>;

    closed spec fn view(&self) -> Option<VariantView> {
        match self.tag {
            QVariantType::String => Some(VariantView::String(self.text@)),
            QVariantType::Int => Some(VariantView::Int(self.number)),
            QVariantType::Bool => Some(VariantView::Bool(self.flag)),
            QVariantType::Unsupported => None,
        }
    }
}

impl QVariant {
    /// Builds the native variant that stands for `value`: the tag of its
    /// case, with its payload.
    pub fn from_rust(value: &Variant) -> (v: QVariant)
        ensures
            v@ == Some(value@),
    {
        match value {
            Variant::String(s) => QVariant {
                tag: QVariantType::String,
                text: s.clone(),
                number: 0,
                flag: false,
            },
            Variant::Int(i) => QVariant {
                tag: QVariantType::Int,
                text: String::new(),
                number: *i,
                flag: false,
            },
            Variant::Bool(b) => QVariant {
                tag: QVariantType::Bool,
                text: String::new(),
                number: 0,
                flag: *b,
            },
        }
    }

    /// A native variant of a type that the managed side does not know.
    pub fn unsupported() -> (v: QVariant)
        ensures
            v@ is None,
    {
        QVariant { tag: QVariantType::Unsupported, text: String::new(), number: 0, flag: false }
    }

    /// Reads the native variant by its tag: the managed case of that type
    /// with a copy of the payload, and nothing where the tag is not a known
    /// one. No value is ever made up.
    pub fn to_rust(&self) -> (value: Option<Variant>)
        ensures
            match value {
                Some(v) => self@ == Some(v@),
                None => self@ is None,
            },
    {
        match self.tag {
            QVariantType::String => Some(Variant::String(self.text.clone())),
            QVariantType::Int => Some(Variant::Int(self.number)),
            QVariantType::Bool => Some(Variant::Bool(self.flag)),
            QVariantType::Unsupported => None,
        }
    }
}

} // verus!

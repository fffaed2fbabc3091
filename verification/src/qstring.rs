use vstd::prelude::*;

verus! {

/// A native string as the bridge sees it: text that lives on the native side
/// and is built, read and overwritten only through the conversions below.
///
/// The view is the text, as a sequence of characters.
pub struct QString {
    text: String,
}

impl View for QString {
    type V = Seq<char>;

    closed spec fn view(&self) -> Seq<char> {
        self.text@
    }
}

impl QString {
    /// The managed string that `to_rust` hands out.
    pub closed spec fn spec_to_rust(&self) -> String {
        self.text
    }

    /// Builds a native string that holds exactly the characters of `value`.
    pub fn from_rust(value: &str) -> (s: QString)
        ensures
            s@ == value@,
    {
        QString { text: value.to_owned() }
    }

    /// Copies the text out into an owned managed string. The native string
    /// stays as it was, and the copy does not follow later changes to it.
    pub fn to_rust(&self) -> (s: String)
        ensures
            s == self.spec_to_rust(),
            s@ == self@,
    {
        self.text.clone()
    }

    /// Overwrites this string in place with the text of `value`, whatever
    /// the two lengths are.
    pub fn assign(&mut self, value: &QString)
        ensures
            final(self)@ == value@,
    {
        self.text = value.text.clone();
    }
}

} // verus!

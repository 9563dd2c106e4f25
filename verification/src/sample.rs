use vstd::prelude::*;

verus! {

/// The mathematical value of an [`ActivitySample`]: the process name of the
/// focused application and the title that will be reported for it.
pub ghost struct SampleModel {
    pub app: Seq<char>,
    pub title: Seq<char>,
}

/// One instant's classification of the focused window, after redaction.
/// Immutable; equality is structural over both fields.
pub struct ActivitySample {
    pub app: String,
    pub title: String,
}

impl View for ActivitySample {
    type V = SampleModel;

    open spec fn view(&self) -> SampleModel {
        SampleModel { app: self.app@, title: self.title@ }
    }
}

impl ActivitySample {
    pub fn new(app: String, title: String) -> (s: Self)
        ensures
            s@.app == app@,
            s@.title == title@,
    {
        ActivitySample { app, title }
    }

    /// A fresh sample with the same contents, for storing the sample in one
    /// place while sending it to another.
    pub fn duplicate(&self) -> (r: Self)
        ensures
            r == *self,
    {
        ActivitySample { app: self.app.clone(), title: self.title.clone() }
    }

    /// Structural equality: both the application and the reported title match.
    pub fn same_as(&self, other: &ActivitySample) -> (r: bool)
        ensures
            r == (self@ == other@),
    {
        self.app == other.app && self.title == other.title
    }
}

} // verus!

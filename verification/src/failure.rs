//! Refusals with a message.
use vstd::prelude::*;
use vstd::string::*;

verus! {

/// Why something was refused, in the words that are shown.
#[derive(Debug)]
pub struct Failure {
    text: String,
    shown: String,
}

impl View for Failure {
    type V = Seq<char>;

    closed spec fn view(&self) -> Seq<char> {
        self.text@
    }
}

impl Failure {
    /// What is shown besides, when the refusal happens.
    pub closed spec fn shown(&self) -> Seq<char> {
        self.shown@
    }

    /// A refusal with these words, and a diagnosis that is shown when it happens.
    pub fn diagnosed(text: &str, shown: String) -> (f: Failure)
        ensures
            f@ == text@,
            f.shown() == shown@,
    {
        Failure { text: text.to_owned(), shown }
    }

    /// What is shown besides, when the refusal happens; empty where there is nothing.
    pub fn diagnosis(&self) -> (s: &str)
        ensures
            s@ == self.shown(),
    {
        self.shown.as_str()
    }

    /// A refusal with these words.
    pub fn new(text: &str) -> (f: Failure)
        ensures
            f@ == text@,
            f.shown() == Seq::<char>::empty(),
    {
        Failure { text: text.to_owned(), shown: String::new() }
    }

    /// A refusal with these words and a name behind them.
    pub fn about(text: &str, name: &str) -> (f: Failure)
        ensures
            f@ == text@ + name@,
            f.shown() == Seq::<char>::empty(),
    {
        let mut t = String::new();
        t.append(text);
        t.append(name);
        assert(t@ =~= text@ + name@);
        Failure { text: t, shown: String::new() }
    }

    /// A refusal with a name between two pieces of text.
    pub fn around(before: &str, name: &str, after: &str) -> (f: Failure)
        ensures
            f@ == before@ + name@ + after@,
            f.shown() == Seq::<char>::empty(),
    {
        let mut t = String::new();
        t.append(before);
        t.append(name);
        t.append(after);
        assert(t@ =~= before@ + name@ + after@);
        Failure { text: t, shown: String::new() }
    }

    /// The words.
    pub fn message(&self) -> (m: &str)
        ensures
            m@ == self@,
    {
        self.text.as_str()
    }
}

} // verus!

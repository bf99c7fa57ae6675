use vstd::prelude::*;

verus! {

/// Where a formatted input came from.
#[derive(Clone, Debug)]
pub enum FileName {
    /// A file on disk, by its path.
    Real(String),
    /// Standard input, which has no path.
    Stdin,
}

/// The line-ending convention that formatting applied. `Auto` means that the
/// user asked for no particular one.
#[derive(Clone, Copy, Debug, PartialEq, Eq, Structural)]
pub enum NewlineStyle {
    Auto,
    Native,
    Unix,
    Windows,
}

/// The outcome of formatting one input: the formatted text, the original
/// text if it was kept while parsing, and the newline style applied.
#[derive(Clone, Debug)]
pub struct FormatResult {
    formatted_text: String,
    original_snippet: Option<String>,
    newline_style: NewlineStyle,
}

impl FormatResult {
    pub closed spec fn spec_formatted_text(&self) -> Seq<char> {
        self.formatted_text@
    }

    pub closed spec fn spec_original_text(&self) -> Option<Seq<char>> {
        match self.original_snippet {
            Some(s) => Some(s@),
            None => None,
        }
    }

    pub closed spec fn spec_newline_style(&self) -> NewlineStyle {
        self.newline_style
    }

    pub fn new(
        formatted_text: String,
        original_snippet: Option<String>,
        newline_style: NewlineStyle,
    ) -> (r: FormatResult)
        ensures
            r.spec_formatted_text() == formatted_text@,
            r.spec_original_text() == (match original_snippet {
                Some(s) => Some(s@),
                None => None::<Seq<char>>,
            }),
            r.spec_newline_style() == newline_style,
    {
        FormatResult { formatted_text, original_snippet, newline_style }
    }

    pub fn formatted_text(&self) -> (r: &str)
        ensures
            r@ == self.spec_formatted_text(),
    {
        self.formatted_text.as_str()
    }

    /// The original text, where it was kept while parsing.
    pub fn original_text(&self) -> (r: Option<&str>)
        ensures
            r matches Some(s) ==> self.spec_original_text() == Some(s@),
            r is None ==> self.spec_original_text() is None,
    {
        match &self.original_snippet {
            Some(s) => Some(s.as_str()),
            None => None,
        }
    }

    pub fn newline_style(&self) -> (r: NewlineStyle)
        ensures
            r == self.spec_newline_style(),
    {
        self.newline_style
    }
}

/// The formatting outcomes of one run, in the order in which the inputs were
/// added.
#[derive(Clone, Debug)]
pub struct FormatReport {
    entries: Vec<(FileName, FormatResult)>,
}

impl View for FormatReport {
    type V = Seq<(FileName, FormatResult)>;

    closed spec fn view(&self) -> Seq<(FileName, FormatResult)> {
        self.entries@
    }
}

impl FormatReport {
    pub fn new() -> (r: FormatReport)
        ensures
            r@ == Seq::<(FileName, FormatResult)>::empty(),
    {
        FormatReport { entries: Vec::new() }
    }

    /// Appends the outcome for one input after those already there.
    pub fn add(&mut self, filename: FileName, result: FormatResult)
        ensures
            final(self)@ == old(self)@.push((filename, result)),
    {
        self.entries.push((filename, result));
    }

    pub fn len(&self) -> (r: usize)
        ensures
            r == self@.len(),
    {
        self.entries.len()
    }

    pub fn is_empty(&self) -> (r: bool)
        ensures
            r == (self@.len() == 0),
    {
        self.entries.len() == 0
    }

    /// The input and outcome at position `i`, in order of addition.
    pub fn get(&self, i: usize) -> (r: (&FileName, &FormatResult))
        requires
            i < self@.len(),
        ensures
            *r.0 == self@[i as int].0,
            *r.1 == self@[i as int].1,
    {
        let entry = &self.entries[i];
        (&entry.0, &entry.1)
    }
}

} // verus!

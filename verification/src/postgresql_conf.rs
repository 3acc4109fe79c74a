//! The settings that Postgres is started with.
use vstd::prelude::*;

verus! {

/// One entry of a configuration file.
#[derive(Debug, PartialEq, Eq)]
pub enum ConfEntry {
    /// A setting, with its value before any quoting.
    Setting { name: String, value: String },
    /// A line that is no setting.
    Line(String),
}

/// What a [`ConfEntry`] denotes.
#[verifier::ext_equal]
pub enum ConfEntryView {
    Setting { name: Seq<char>, value: Seq<char> },
    Line(Seq<char>),
}

impl DeepView for ConfEntry {
    type V = ConfEntryView;

    open spec fn deep_view(&self) -> ConfEntryView {
        match self {
            ConfEntry::Setting { name, value } => ConfEntryView::Setting {
                name: name@,
                value: value@,
            },
            ConfEntry::Line(line) => ConfEntryView::Line(line@),
        }
    }
}

/// A setting.
pub open spec fn setting(name: Seq<char>, value: Seq<char>) -> ConfEntryView {
    ConfEntryView::Setting { name, value }
}

/// A Postgres configuration: its entries, in the order in which they take effect.
#[derive(Debug, PartialEq, Eq)]
pub struct PostgresConf {
    pub entries: Vec<ConfEntry>,
}

impl View for PostgresConf {
    type V = Seq<ConfEntryView>;

    open spec fn view(&self) -> Seq<ConfEntryView> {
        self.entries.deep_view()
    }
}

impl PostgresConf {
    /// The configuration without entries.
    pub fn new() -> (r: PostgresConf)
        ensures
            r@ == Seq::<ConfEntryView>::empty(),
    {
        let r = PostgresConf { entries: Vec::new() };
        assert(r@ =~= Seq::<ConfEntryView>::empty());
        r
    }

    /// Adds a setting at the end.
    pub fn append(&mut self, name: &str, value: &str)
        ensures
            final(self)@ == old(self)@.push(setting(name@, value@)),
    {
        self.entries.push(ConfEntry::Setting { name: name.to_owned(), value: value.to_owned() });
        assert(self@ =~= old(self)@.push(setting(name@, value@)));
    }

    /// Adds a line that is no setting at the end.
    pub fn append_line(&mut self, line: &str)
        ensures
            final(self)@ == old(self)@.push(ConfEntryView::Line(line@)),
    {
        self.entries.push(ConfEntry::Line(line.to_owned()));
        assert(self@ =~= old(self)@.push(ConfEntryView::Line(line@)));
    }
}

} // verus!

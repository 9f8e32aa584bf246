use vstd::prelude::*;
use crate::encoding::{decimal, numeral_text, same_text};
use crate::error::{CmdipassError, ErrorKind};

verus! {

/// One credential record as handed back to the caller.
#[derive(Debug)]
pub struct Entry {
    pub login: String,
    pub name: String,
    pub password: String,
    pub uuid: String,
}

/// What an `Entry` says: its four texts.
pub struct EntryView {
    pub login: Seq<char>,
    pub name: Seq<char>,
    pub password: Seq<char>,
    pub uuid: Seq<char>,
}

impl View for Entry {
    type V = EntryView;

    open spec fn view(&self) -> EntryView {
        EntryView {
            login: self.login@,
            name: self.name@,
            password: self.password@,
            uuid: self.uuid@,
        }
    }
}

/// The line that shows an entry with the texts `entry`.
pub open spec fn entry_line(entry: EntryView) -> Seq<char> {
    "Name: "@ + entry.name + " || Login: "@ + entry.login + " || Password: "@ + entry.password
        + " || UUID: "@ + entry.uuid
}

impl Entry {
    /// The line that shows this entry to the user.
    pub fn describe(&self) -> (line: String)
        ensures
            line@ == entry_line(self@),
    {
        let mut line = String::from_str("Name: ");
        line.append(self.name.as_str());
        line.append(" || Login: ");
        line.append(self.login.as_str());
        line.append(" || Password: ");
        line.append(self.password.as_str());
        line.append(" || UUID: ");
        line.append(self.uuid.as_str());
        line
    }
}

/// The capability that both protocols offer: to phrase a query for the helper, and to read
/// the entries out of its answer. Sending and receiving is left to the caller.
pub trait KeePassBackend {
    /// What is sent to the helper for a query.
    type Query;

    /// What the helper answers.
    type Answer;

    /// Phrases the query for `search_string`.
    fn query(&self, search_string: &str) -> Result<Self::Query, CmdipassError>;

    /// Reads the entries out of the helper's answer.
    fn get_entries(&self, answer: &Self::Answer) -> Result<Vec<Entry>, CmdipassError>;
}

/// Text of the failure of a lookup by position, before the position.
pub const NO_ENTRY_AT_INDEX: &'static str = "No entry found at index ";

/// Text of the failure of a lookup by unique id, before the id.
pub const NO_ENTRY_WITH_UUID: &'static str = "No entry found with UUID ";

/// The entry at `index`, or a failure of class `Protocol` that names the index where the
/// list is shorter.
pub fn entry_by_index(entries: &Vec<Entry>, index: usize) -> (found: Result<
    &Entry,
    CmdipassError,
>)
    ensures
        found is Ok <==> index < entries@.len(),
        found matches Ok(entry) ==> *entry == entries@[index as int],
        found matches Err(e) ==> e.has(
            ErrorKind::Protocol,
            NO_ENTRY_AT_INDEX@ + numeral_text(index as nat, 10),
        ),
{
    if index < entries.len() {
        Ok(&entries[index])
    } else {
        let mut text = String::from_str(NO_ENTRY_AT_INDEX);
        let position = decimal(index as u64);
        text.append(position.as_str());
        Err(CmdipassError::new(ErrorKind::Protocol, text.as_str()))
    }
}

/// The first entry whose unique id is `uuid`, or a failure of class `Protocol` that names
/// the id where no entry has it.
pub fn entry_by_uuid<'a>(entries: &'a Vec<Entry>, uuid: &str) -> (found: Result<
    &'a Entry,
    CmdipassError,
>)
    ensures
        found is Ok <==> exists|i: int| 0 <= i < entries@.len() && #[trigger] entries@[i].uuid@ == uuid@,
        found matches Ok(entry) ==> exists|i: int|
            {
                &&& 0 <= i < entries@.len()
                &&& *entry == #[trigger] entries@[i]
                &&& entries@[i].uuid@ == uuid@
                &&& forall|j: int| 0 <= j < i ==> #[trigger] entries@[j].uuid@ != uuid@
            },
        found matches Err(e) ==> e.has(ErrorKind::Protocol, NO_ENTRY_WITH_UUID@ + uuid@),
{
    let mut i: usize = 0;
    while i < entries.len()
        invariant
            i <= entries@.len(),
            forall|j: int| 0 <= j < i ==> #[trigger] entries@[j].uuid@ != uuid@,
        decreases entries@.len() - i,
    {
        if same_text(entries[i].uuid.as_str(), uuid) {
            return Ok(&entries[i]);
        }
        i += 1;
    }
    let mut text = String::from_str(NO_ENTRY_WITH_UUID);
    text.append(uuid);
    Err(CmdipassError::new(ErrorKind::Protocol, text.as_str()))
}

} // verus!

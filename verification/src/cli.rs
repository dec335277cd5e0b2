//! The interactive front end: the lines that the shell prints for an
//! outcome, and whether it stops. Reading the terminal is the caller's.

use vstd::prelude::*;
use vstd::string::StringExecFns;
use vstd::string::StrSliceExecFns;
use crate::dispatch::Outcome;
use crate::dispatch::Step;
use crate::dispatch::handle;
use crate::dispatch::handles;
use crate::json::Json;
use crate::json::json_pretty_text;
use crate::molecule::Molecule;
use crate::proto::DatabaseOutputError;
use crate::proto::InputSource;
use crate::store::collection::Collection;
use crate::store::collection::CollectionData;
use crate::store::record::Record;
use crate::store::error::StoreError;
use crate::store::record::pretty_text;

verus! {

/// What the shell does with an outcome.
#[derive(Debug, Clone, PartialEq, Eq)]
pub struct ShellOutput {
    /// The lines to print, each without its line end.
    pub lines: Vec<String>,
    /// Whether the shell ends its loop.
    pub stop: bool,
}

/// The line that lists a collection: its name, then its identifier in
/// round brackets.
pub open spec fn collection_line(collection: CollectionData) -> Seq<char> {
    collection.name + "("@ + collection.collection_id + ")"@
}

/// The indented JSON text of each record, or `None` where `serde_json`
/// cannot write one of them.
pub open spec fn pretty_lines(records: Seq<Map<Seq<char>, Json>>) -> Option<Seq<Seq<char>>>
    decreases records.len(),
{
    if records.len() == 0 {
        Some(Seq::empty())
    } else {
        match (pretty_lines(records.drop_last()), json_pretty_text(Json::Object(records.last()))) {
            (Some(before), Some(text)) => Some(before.push(text)),
            _ => None,
        }
    }
}

/// The lines that the shell prints for an outcome, or `None` where
/// `serde_json` cannot write a record. A rejected line prints its message.
/// A request that the store has no operation for prints the error's line.
/// Lists print one line for each entry, or a notice where they are empty;
/// what was not found prints a notice; what was created prints nothing.
pub open spec fn shell_lines(outcome: Outcome) -> Option<Seq<Seq<char>>> {
    match outcome {
        Outcome::Rejected(err) => Some(seq![err.message_text()]),
        Outcome::Nothing => Some(Seq::empty()),
        Outcome::Stop => Some(Seq::empty()),
        Outcome::Unavailable => Some(seq![DatabaseOutputError::CmdNotAvailable.text().drop_last()]),
        Outcome::Collections(listed) => if listed.len() == 0 {
            Some(seq!["No collections to list."@])
        } else {
            Some(listed.deep_view().map_values(|c: CollectionData| collection_line(c)))
        },
        Outcome::CollectionName(Some(name)) => Some(seq![name@]),
        Outcome::CollectionName(None) => Some(seq!["No collection found with that ID."@]),
        Outcome::Records(records) => if records.len() == 0 {
            Some(seq!["No records in collection."@])
        } else {
            pretty_lines(records.deep_view())
        },
        Outcome::FoundRecord(Some(record)) => match json_pretty_text(Json::Object(record@)) {
            Some(text) => Some(seq![text]),
            None => None,
        },
        Outcome::FoundRecord(None) => Some(
            seq!["No record found in collection with the specified ID."@],
        ),
        Outcome::CreatedCollection(_) => Some(Seq::empty()),
        Outcome::CreatedRecord(_) => Some(Seq::empty()),
    }
}

/// One line for each collection.
fn collection_lines(listed: &Vec<Collection>) -> (lines: Vec<String>)
    ensures
        lines.deep_view() == listed.deep_view().map_values(|c: CollectionData| collection_line(c)),
{
    let mut lines: Vec<String> = Vec::new();
    let mut i: usize = 0;
    while i < listed.len()
        invariant
            i <= listed.len(),
            lines.len() == i,
            forall|k: int| 0 <= k < i ==> (#[trigger] lines[k])@ == collection_line(listed[k]@),
        decreases listed.len() - i,
    {
        let mut line = listed[i].name.clone();
        line.append("(");
        line.append(listed[i].collection_id.as_str());
        line.append(")");
        lines.push(line);
        i += 1;
    }
    assert(lines.deep_view() =~= listed.deep_view().map_values(
        |c: CollectionData| collection_line(c),
    ));
    lines
}

/// The indented JSON text of each record.
fn record_lines(records: &Vec<Record>) -> (lines: Result<Vec<String>, StoreError>)
    ensures
        match lines {
            Ok(written) => pretty_lines(records.deep_view()) == Some(written.deep_view()),
            Err(err) => pretty_lines(records.deep_view()) is None && err is Encode,
        },
{
    let ghost all = records.deep_view();
    let mut lines: Vec<String> = Vec::new();
    let mut i: usize = 0;
    assert(all.take(0) =~= Seq::<Map<Seq<char>, Json>>::empty());
    assert(lines.deep_view() =~= Seq::<Seq<char>>::empty());
    while i < records.len()
        invariant
            i <= records.len(),
            all == records.deep_view(),
            pretty_lines(all.take(i as int)) == Some(lines.deep_view()),
        decreases records.len() - i,
    {
        let ghost before = lines.deep_view();
        proof {
            assert(all.take(i + 1).drop_last() =~= all.take(i as int));
            assert(all.take(i + 1).last() == records[i as int]@);
        }
        match pretty_text(&records[i]) {
            Ok(text) => {
                lines.push(text);
                assert(lines.deep_view() =~= before.push(text@));
            },
            Err(err) => {
                proof {
                    lemma_pretty_lines_prefix(all, i + 1);
                }
                return Err(err);
            },
        }
        i += 1;
    }
    assert(all.take(records.len() as int) =~= all);
    Ok(lines)
}

/// Where a prefix of the records cannot be written, neither can the whole.
pub proof fn lemma_pretty_lines_prefix(records: Seq<Map<Seq<char>, Json>>, n: int)
    requires
        0 <= n <= records.len(),
        pretty_lines(records.take(n)) is None,
    ensures
        pretty_lines(records) is None,
    decreases records.len(),
{
    if n < records.len() {
        assert(records.drop_last().take(n) =~= records.take(n));
        lemma_pretty_lines_prefix(records.drop_last(), n);
    } else {
        assert(records.take(n) =~= records);
    }
}

/// The line of an error without its line end.
fn without_line_end(err: DatabaseOutputError) -> (line: String)
    ensures
        line@ == err.text().drop_last(),
{
    let text = err.as_str();
    proof {
        reveal_strlit("ERR invalid_input\n");
        reveal_strlit("ERR cmd_not_available\n");
    }
    let n = text.unicode_len();
    assert(text@.subrange(0, n - 1) =~= text@.drop_last());
    text.substring_char(0, n - 1).to_owned()
}

/// A single line.
fn one_line(text: String) -> (lines: Vec<String>)
    ensures
        lines.deep_view() == seq![text@],
{
    let mut lines: Vec<String> = Vec::new();
    lines.push(text);
    assert(lines.deep_view() =~= seq![text@]);
    lines
}

/// What the shell does with an outcome: the lines that it prints, and
/// whether it stops, which it does for a request to stop and for no other.
pub fn render(outcome: Outcome) -> (output: Result<ShellOutput, StoreError>)
    ensures
        match output {
            Ok(shown) => shell_lines(outcome) == Some(shown.lines.deep_view()) && shown.stop == (
            outcome is Stop),
            Err(err) => shell_lines(outcome) is None && err is Encode,
        },
{
    let stop = match &outcome {
        Outcome::Stop => true,
        _ => false,
    };
    let lines = match outcome {
        Outcome::Rejected(err) => one_line(err.message()),
        Outcome::Unavailable => one_line(without_line_end(DatabaseOutputError::CmdNotAvailable)),
        Outcome::Collections(listed) => if listed.len() == 0 {
            one_line(String::from_str("No collections to list."))
        } else {
            collection_lines(&listed)
        },
        Outcome::CollectionName(Some(name)) => one_line(name),
        Outcome::CollectionName(None) => one_line(
            String::from_str("No collection found with that ID."),
        ),
        Outcome::Records(records) => if records.len() == 0 {
            one_line(String::from_str("No records in collection."))
        } else {
            match record_lines(&records) {
                Ok(lines) => lines,
                Err(err) => {
                    return Err(err);
                },
            }
        },
        Outcome::FoundRecord(Some(record)) => match pretty_text(&record) {
            Ok(text) => one_line(text),
            Err(err) => {
                return Err(err);
            },
        },
        Outcome::FoundRecord(None) => one_line(
            String::from_str("No record found in collection with the specified ID."),
        ),
        _ => {
            let lines: Vec<String> = Vec::new();
            assert(lines.deep_view() =~= Seq::<Seq<char>>::empty());
            lines
        },
    };
    Ok(ShellOutput { lines, stop })
}

/// The interactive front end of a server, without the terminal.
pub trait MoleculeCliApi {
    /// Takes the first step of a command line that was typed into the
    /// shell.
    fn handle_line(&self, input: String) -> Step;
}

impl MoleculeCliApi for Molecule {
    fn handle_line(&self, input: String) -> (step: Step)
        ensures
            handles(input@, InputSource::Cli, step),
    {
        handle(input, InputSource::Cli)
    }
}

} // verus!

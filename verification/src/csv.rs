//! CSV record writing.
//!
//! A writer validates and orders records; the actual file I/O runs on a
//! dedicated writer thread owned by the embedding, fed through a channel.
//! The writer owns the sending end; closing the writer drops it, which
//! signals the thread to finish.

use vstd::prelude::*;

use std::sync::mpsc::Sender;

use crate::errors::PsydkError;
use crate::errors::PsydkResult;

verus! {

/// The sending end of the channel to the writer thread.
#[verifier::external_type_specification]
#[verifier::external_body]
#[verifier::reject_recursive_types(T)]
pub struct ExSender<T>(Sender<T>);

/// Relies on `std::sync::mpsc::Sender::send`: hands the record to the
/// writer thread, returning whether it was accepted (it is refused exactly
/// when the receiving end has disconnected, which depends on the thread's
/// state, so nothing more is assumed of the outcome).
#[verifier::external_body]
fn send_record(sender: &Sender<Vec<String>>, record: Vec<String>) -> (ok: bool) {
    sender.send(record).is_ok()
}

/// Writes delimited records, in a fixed header order, through a channel to
/// the embedding's writer thread.
#[derive(Debug)]
pub struct CSVWriter {
    /// The path of the file being written.
    pub path: String,
    /// The field delimiter.
    pub delimiter: char,
    /// The column headers, fixing the field order.
    pub headers: Vec<String>,
    /// The channel to the writer thread; `None` once closed.
    pub record_sender: Option<Sender<Vec<String>>>,
}

impl CSVWriter {
    /// Builds a writer over an already-connected channel to the writer
    /// thread (opening the file and spawning the thread belong to the
    /// embedding).
    pub fn attach(
        path: String,
        delimiter: char,
        headers: Vec<String>,
        sender: Sender<Vec<String>>,
    ) -> (w: CSVWriter)
        ensures
            w.path == path,
            w.delimiter == delimiter,
            w.headers == headers,
            w.record_sender is Some,
    {
        CSVWriter { path, delimiter, headers, record_sender: Some(sender) }
    }

    /// Sends one record to the writer thread. Fails with an I/O error when
    /// the writer is already closed, or when the writer thread is gone.
    pub fn write_record(&self, record: Vec<String>) -> (r: PsydkResult<()>)
        ensures
            self.record_sender is None ==> (r matches Err(e) && e matches PsydkError::IOError(_)),
            r is Ok ==> self.record_sender is Some,
            r matches Err(e) ==> e matches PsydkError::IOError(_),
    {
        match &self.record_sender {
            Some(sender) => {
                if send_record(sender, record) {
                    Ok(())
                } else {
                    Err(PsydkError::IOError("CSV writer thread is gone".to_owned()))
                }
            },
            None => Err(PsydkError::IOError("CSV writer is closed".to_owned())),
        }
    }

    /// Closes the writer: the channel is dropped, signalling the writer
    /// thread to flush and exit. Further writes fail.
    pub fn close(&mut self)
        ensures
            final(self).record_sender is None,
            final(self).path == old(self).path,
            final(self).delimiter == old(self).delimiter,
            final(self).headers == old(self).headers,
    {
        self.record_sender = None;
    }
}

/// The value of the first entry of `rec` whose key reads `key`, if any.
pub open spec fn spec_lookup(rec: Seq<(String, String)>, key: Seq<char>) -> Option<Seq<char>>
    decreases rec.len(),
{
    if rec.len() == 0 {
        None
    } else if rec.first().0@ == key {
        Some(rec.first().1@)
    } else {
        spec_lookup(rec.drop_first(), key)
    }
}

/// Whether some header of `headers` reads `key`.
pub open spec fn spec_has_header(headers: Seq<String>, key: Seq<char>) -> bool {
    exists|i: int| 0 <= i < headers.len() && #[trigger] headers[i]@ == key
}

/// Looks up the first entry of `rec` whose key reads `key`.
fn lookup(rec: &Vec<(String, String)>, key: &String) -> (r: Option<String>)
    ensures
        (r matches Some(v) && spec_lookup(rec@, key@) matches Some(sv) && v@ == sv) || (r is None
            && spec_lookup(rec@, key@) is None),
{
    let n = rec.len();
    let mut i: usize = 0;
    proof {
        assert(rec@.skip(0) =~= rec@);
    }
    while i < n
        invariant
            i <= n == rec@.len(),
            spec_lookup(rec@, key@) == spec_lookup(rec@.skip(i as int), key@),
        decreases n - i,
    {
        proof {
            assert(rec@.skip(i as int).first() == rec@[i as int]);
            assert(rec@.skip(i as int).drop_first() =~= rec@.skip(i + 1));
        }
        if rec[i].0.eq(key) {
            let v = rec[i].1.clone();
            return Some(v);
        }
        i = i + 1;
    }
    proof {
        assert(rec@.skip(n as int) =~= Seq::<(String, String)>::empty());
    }
    None
}

/// Orders a keyed record by the headers: one field per header, the
/// record's value for that header or the empty string when the record has
/// none.
pub fn dict_to_record(headers: &Vec<String>, rec: &Vec<(String, String)>) -> (r: Vec<String>)
    ensures
        r@.len() == headers@.len(),
        forall|i: int|
            0 <= i < headers@.len() ==> (#[trigger] r@[i])@ == (match spec_lookup(
                rec@,
                headers@[i]@,
            ) {
                Some(v) => v,
                None => Seq::<char>::empty(),
            }),
{
    let n = headers.len();
    let mut out: Vec<String> = Vec::new();
    let mut i: usize = 0;
    while i < n
        invariant
            i <= n == headers@.len(),
            out@.len() == i,
            forall|k: int|
                0 <= k < i ==> (#[trigger] out@[k])@ == (match spec_lookup(rec@, headers@[k]@) {
                    Some(v) => v,
                    None => Seq::<char>::empty(),
                }),
        decreases n - i,
    {
        match lookup(rec, &headers[i]) {
            Some(v) => out.push(v),
            None => out.push(String::new()),
        }
        i = i + 1;
    }
    out
}

/// The writer as exposed to the host scripting environment, which hands
/// records over as key/value pairs.
#[derive(Debug)]
pub struct PyCSVWriter(pub CSVWriter);

impl PyCSVWriter {
    /// Wraps a writer for the host scripting environment.
    pub fn wrap(writer: CSVWriter) -> (w: PyCSVWriter)
        ensures
            w.0 == writer,
    {
        PyCSVWriter(writer)
    }

    /// Sends one ordered record.
    pub fn write_record(&self, record: Vec<String>) -> (r: PsydkResult<()>)
        ensures
            self.0.record_sender is None ==> (r matches Err(e) && e matches PsydkError::IOError(
                _,
            )),
            r is Ok ==> self.0.record_sender is Some,
    {
        self.0.write_record(record)
    }

    /// Sends one keyed record: every key must be a known header (otherwise
    /// a parameter error and nothing is written), and the fields are
    /// ordered by the headers, with missing keys written as empty fields.
    pub fn write_dict(&self, record: Vec<(String, String)>) -> (r: PsydkResult<()>)
        ensures
            (exists|i: int|
                0 <= i < record@.len() && !spec_has_header(
                    self.0.headers@,
                    (#[trigger] record@[i]).0@,
                )) ==> (r matches Err(e) && e matches PsydkError::ParameterError(_)),
            r is Ok ==> self.0.record_sender is Some && (forall|i: int|
                0 <= i < record@.len() ==> spec_has_header(
                    self.0.headers@,
                    (#[trigger] record@[i]).0@,
                )),
    {
        let n = record.len();
        let mut i: usize = 0;
        while i < n
            invariant
                i <= n == record@.len(),
                forall|k: int|
                    0 <= k < i ==> spec_has_header(self.0.headers@, (#[trigger] record@[k]).0@),
            decreases n - i,
        {
            if !has_header(&self.0.headers, &record[i].0) {
                return Err(PsydkError::ParameterError("Key not found in headers".to_owned()));
            }
            i = i + 1;
        }
        let ordered = dict_to_record(&self.0.headers, &record);
        self.0.write_record(ordered)
    }

    /// Closes the underlying writer.
    pub fn close(&mut self)
        ensures
            final(self).0.record_sender is None,
            final(self).0.path == old(self).0.path,
            final(self).0.delimiter == old(self).0.delimiter,
            final(self).0.headers == old(self).0.headers,
    {
        self.0.close();
    }
}

/// Whether some header reads the same as `key`.
fn has_header(headers: &Vec<String>, key: &String) -> (r: bool)
    ensures
        r == spec_has_header(headers@, key@),
{
    let n = headers.len();
    let mut i: usize = 0;
    while i < n
        invariant
            i <= n == headers@.len(),
            forall|k: int| 0 <= k < i ==> (#[trigger] headers@[k])@ != key@,
        decreases n - i,
    {
        if headers[i].eq(key) {
            return true;
        }
        i = i + 1;
    }
    false
}

} // verus!

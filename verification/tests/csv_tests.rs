//! The CSV writer: channel delivery, header validation and record
//! ordering.

use std::sync::mpsc::channel;

use psydk::csv::dict_to_record;
use psydk::csv::CSVWriter;
use psydk::csv::PyCSVWriter;
use psydk::errors::PsydkError;

fn headers() -> Vec<String> {
    vec!["trial".to_string(), "response".to_string(), "rt".to_string()]
}

#[test]
fn write_record_delivers_through_the_channel() {
    let (tx, rx) = channel();
    let w = CSVWriter::attach("results.csv".to_string(), ',', headers(), tx);
    assert_eq!(w.path, "results.csv");
    assert_eq!(w.delimiter, ',');
    w.write_record(vec!["1".to_string(), "left".to_string(), "432".to_string()])
        .expect("write into an open channel must succeed");
    let got = rx.recv().unwrap();
    assert_eq!(got, vec!["1", "left", "432"]);
}

#[test]
fn closed_writer_rejects_records() {
    let (tx, _rx) = channel();
    let mut w = CSVWriter::attach("results.csv".to_string(), ',', headers(), tx);
    w.close();
    match w.write_record(vec!["1".to_string()]) {
        Err(PsydkError::IOError(_)) => {}
        other => panic!("expected an I/O error, got {:?}", other),
    }
}

#[test]
fn write_to_a_gone_thread_reports_io_error() {
    let (tx, rx) = channel::<Vec<String>>();
    drop(rx);
    let w = CSVWriter::attach("results.csv".to_string(), ',', headers(), tx);
    match w.write_record(vec!["1".to_string()]) {
        Err(PsydkError::IOError(_)) => {}
        other => panic!("expected an I/O error, got {:?}", other),
    }
}

#[test]
fn dict_records_are_ordered_by_headers_with_empty_fill() {
    let record = vec![
        ("rt".to_string(), "432".to_string()),
        ("trial".to_string(), "7".to_string()),
    ];
    let ordered = dict_to_record(&headers(), &record);
    assert_eq!(ordered, vec!["7".to_string(), "".to_string(), "432".to_string()]);
}

#[test]
fn dict_lookup_takes_the_first_occurrence() {
    let record = vec![
        ("trial".to_string(), "1".to_string()),
        ("trial".to_string(), "2".to_string()),
    ];
    let ordered = dict_to_record(&headers(), &record);
    assert_eq!(ordered[0], "1");
}

#[test]
fn write_dict_validates_keys_and_delivers_ordered() {
    let (tx, rx) = channel();
    let w = PyCSVWriter::wrap(CSVWriter::attach("r.csv".to_string(), ',', headers(), tx));
    match w.write_dict(vec![("speed".to_string(), "3".to_string())]) {
        Err(PsydkError::ParameterError(_)) => {}
        other => panic!("unknown key must be rejected, got {:?}", other),
    }
    w.write_dict(vec![
        ("response".to_string(), "left".to_string()),
        ("trial".to_string(), "1".to_string()),
    ])
    .expect("known keys must be accepted");
    let got = rx.recv().unwrap();
    assert_eq!(got, vec!["1", "left", ""]);
}

#[test]
fn py_writer_close_propagates() {
    let (tx, _rx) = channel();
    let mut w = PyCSVWriter::wrap(CSVWriter::attach("r.csv".to_string(), ',', headers(), tx));
    w.close();
    assert!(w.write_record(vec![]).is_err());
}

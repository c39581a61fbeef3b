use lineup::context::Context;
use lineup::effects::{Feed, RawOut, Reply, Request, Stop};
use lineup::items::{Items, ItemsCommand, ItemsJson, ItemsSeq, ItemsVariable, StringOrInt,
    StringOrUsize};
use lineup::table::{Table, TableCommand, TableFormat};
use lineup::value::Val;

/// Replays a feed-driven call with canned command output and identity
/// rendering.
fn drive<T>(stdout: &str, mut f: impl FnMut(&mut Feed) -> Result<T, Stop>) -> T {
    let mut feed = Feed::new();
    loop {
        feed.cursor = 0;
        match f(&mut feed) {
            Ok(r) => return r,
            Err(Stop::Fail(failure)) => {
                panic!("unexpected failure: {:?}", failure.error);
            }
            Err(Stop::Suspend(req)) => {
                let reply = match req {
                    Request::Render { template, .. } => Reply::Rendered(Ok(template)),
                    Request::RunCmd { .. } => Reply::Ran(Ok(RawOut {
                        stdout: stdout.to_string(),
                        stderr: String::new(),
                        code: Some(0),
                    })),
                    _ => Reply::Unit(Ok(())),
                };
                feed.replies.push(reply);
            }
        }
    }
}

#[test]
fn items_words_keep_their_text() {
    let items = Items::Words(vec![
        StringOrInt::Text("a".to_string()),
        StringOrInt::Number(-2),
    ]);
    let got = drive("", |feed| items.list(&Context::new(), feed)).unwrap();
    assert_eq!(got, vec!["a".to_string(), "-2".to_string()]);
}

#[test]
fn items_sequence_steps_in_decimal() {
    let items = Items::Sequence(ItemsSeq {
        start: StringOrUsize::Number(1),
        end: StringOrUsize::Number(7),
        step: StringOrUsize::Number(2),
    });
    let got = drive("", |feed| items.list(&Context::new(), feed)).unwrap();
    assert_eq!(got, vec!["1".to_string(), "3".to_string(), "5".to_string()]);
    let empty = Items::Sequence(ItemsSeq {
        start: StringOrUsize::Number(4),
        end: StringOrUsize::Number(4),
        step: StringOrUsize::Number(1),
    });
    let got = drive("", |feed| empty.list(&Context::new(), feed)).unwrap();
    assert!(got.is_empty());
}

#[test]
fn items_command_takes_output_lines() {
    let items = Items::Command(ItemsCommand { command: "list-names".to_string() });
    let got = drive("one\ntwo\n", |feed| items.list(&Context::new(), feed)).unwrap();
    assert_eq!(got, vec!["one".to_string(), "two".to_string()]);
}

#[test]
fn items_json_array_and_object() {
    let items = Items::Json(ItemsJson { json: "[\"a\", 2, true, null]".to_string() });
    let got = drive("", |feed| items.list(&Context::new(), feed)).unwrap();
    assert_eq!(got, vec!["a".to_string(), "2".to_string(), "true".to_string(), "".to_string()]);
    let items = Items::Json(ItemsJson { json: "{\"k1\": 1, \"k2\": 2}".to_string() });
    let got = drive("", |feed| items.list(&Context::new(), feed)).unwrap();
    assert_eq!(got, vec!["k1".to_string(), "k2".to_string()]);
}

#[test]
fn items_variable_reads_the_context() {
    let mut ctx = Context::new();
    ctx.insert(
        "targets".to_string(),
        Val::Arr(vec![Val::Str("x".to_string()), Val::Uint(9)]),
    );
    let items = Items::Variable(ItemsVariable { variable: "targets".to_string() });
    let got = drive("", |feed| items.list(&ctx, feed)).unwrap();
    assert_eq!(got, vec!["x".to_string(), "9".to_string()]);
    let missing = Items::Variable(ItemsVariable { variable: "ghost".to_string() });
    let err = drive("", |feed| missing.list(&Context::new(), feed));
    assert!(matches!(err.unwrap_err().error, lineup::error::Error::NoItemsVar(_)));
}

#[test]
fn table_command_parses_csv_rows() {
    let table = Table::Command(TableCommand {
        command: "emit".to_string(),
        format: TableFormat::Csv,
    });
    let got = drive("name,port\nweb,80\n", |feed| table.list(&Context::new(), feed))
        .unwrap();
    assert_eq!(got, vec![vec![
        ("name".to_string(), "web".to_string()),
        ("port".to_string(), "80".to_string()),
    ]]);
}

#[test]
fn table_command_parses_json_rows() {
    let table = Table::Command(TableCommand {
        command: "emit".to_string(),
        format: TableFormat::Json,
    });
    let got = drive("[{\"name\": \"web\", \"port\": 80}]", |feed| {
        table.list(&Context::new(), feed)
    })
    .unwrap();
    assert_eq!(got, vec![vec![
        ("name".to_string(), "web".to_string()),
        ("port".to_string(), "80".to_string()),
    ]]);
}

#[test]
fn inline_table_rows_render_cells() {
    let table = Table::Maps(vec![vec![
        ("n".to_string(), StringOrInt::Number(3)),
        ("s".to_string(), StringOrInt::Text("t".to_string())),
    ]]);
    let got = drive("", |feed| table.list(&Context::new(), feed)).unwrap();
    assert_eq!(got, vec![vec![
        ("n".to_string(), "3".to_string()),
        ("s".to_string(), "t".to_string()),
    ]]);
}

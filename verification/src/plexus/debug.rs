//! Debug endpoints: controlled streams that exercise every message kind of
//! the stream protocol, in fixed scenarios chosen by a request parameter.
//!
//! The library decides what each endpoint emits and after which delay; the
//! server turns each planned item into a stream item with its metadata and
//! waits the planned delay before sending it.

use vstd::prelude::*;
use crate::text::{concat3, decimal, decimal_string, digit_char, same_text, views};
use super::types::StreamMetadata;
use crate::foreign::{json_str_member, json_text_member};
use serde_json::Value;

verus! {

/// A JSON value in the content of a debug data item.
#[derive(Debug, Clone)]
pub enum DebugValue {
    /// A JSON string.
    Text(String),
    /// A JSON number.
    Number(u64),
}

/// One planned item of a debug stream.
#[derive(Debug, Clone)]
pub enum DebugItem {
    /// A data item whose content is a JSON object with the given members.
    Data { content_type: String, content: Vec<(String, DebugValue)> },
    /// A progress item with its completion percentage.
    Progress { message: String, percentage: u64 },
    /// An error item with its code.
    Error { message: String, code: String, recoverable: bool },
    /// The end of the stream.
    Done,
}

/// A planned item and the delay, in milliseconds, to wait before it.
#[derive(Debug, Clone)]
pub struct DebugStep {
    pub delay_ms: u64,
    pub item: DebugItem,
}

/// The value of a content member.
pub enum FieldView {
    Text(Seq<char>),
    Number(nat),
}

/// The value of a planned item.
pub enum ItemView {
    Data { content_type: Seq<char>, content: Seq<(Seq<char>, FieldView)> },
    Progress { message: Seq<char>, percentage: nat },
    Error { message: Seq<char>, code: Seq<char>, recoverable: bool },
    Done,
}

/// The value of a planned step.
pub struct StepView {
    pub delay_ms: nat,
    pub item: ItemView,
}

impl View for DebugValue {
    type V = FieldView;

    open spec fn view(&self) -> FieldView {
        match self {
            DebugValue::Text(s) => FieldView::Text(s@),
            DebugValue::Number(n) => FieldView::Number(*n as nat),
        }
    }
}

/// The value of a content object.
pub open spec fn fields_view(c: Seq<(String, DebugValue)>) -> Seq<(Seq<char>, FieldView)> {
    c.map_values(|f: (String, DebugValue)| (f.0@, f.1@))
}

impl View for DebugItem {
    type V = ItemView;

    open spec fn view(&self) -> ItemView {
        match self {
            DebugItem::Data { content_type, content } => ItemView::Data {
                content_type: content_type@,
                content: fields_view(content@),
            },
            DebugItem::Progress { message, percentage } => ItemView::Progress {
                message: message@,
                percentage: *percentage as nat,
            },
            DebugItem::Error { message, code, recoverable } => ItemView::Error {
                message: message@,
                code: code@,
                recoverable: *recoverable,
            },
            DebugItem::Done => ItemView::Done,
        }
    }
}

impl View for DebugStep {
    type V = StepView;

    open spec fn view(&self) -> StepView {
        StepView { delay_ms: self.delay_ms as nat, item: self.item@ }
    }
}

/// The values of a sequence of planned items.
pub open spec fn items_view(v: Seq<DebugItem>) -> Seq<ItemView> {
    v.map_values(|i: DebugItem| i@)
}

/// The values of a sequence of planned steps.
pub open spec fn steps_view(v: Seq<DebugStep>) -> Seq<StepView> {
    v.map_values(|s: DebugStep| s@)
}

/// A string member.
pub open spec fn text_member(key: Seq<char>, value: Seq<char>) -> (Seq<char>, FieldView) {
    (key, FieldView::Text(value))
}

/// A number member.
pub open spec fn number_member(key: Seq<char>, value: nat) -> (Seq<char>, FieldView) {
    (key, FieldView::Number(value))
}

fn text_field(key: &str, value: &str) -> (f: (String, DebugValue))
    ensures
        (f.0@, f.1@) == text_member(key@, value@),
{
    (String::from_str(key), DebugValue::Text(String::from_str(value)))
}

fn number_field(key: &str, value: u64) -> (f: (String, DebugValue))
    ensures
        (f.0@, f.1@) == number_member(key@, value as nat),
{
    (String::from_str(key), DebugValue::Number(value))
}

fn error_item(message: String, code: &str, recoverable: bool) -> (i: DebugItem)
    ensures
        i@ == (ItemView::Error { message: message@, code: code@, recoverable }),
{
    DebugItem::Error { message, code: String::from_str(code), recoverable }
}

// ---------------------------------------------------------------------------
// Protocol test
// ---------------------------------------------------------------------------

/// The content of a protocol test data item.
pub open spec fn protocol_content(message: Seq<char>, sequence: nat, test_field: Seq<char>) -> Seq<(Seq<char>, FieldView)> {
    seq![
        text_member("message"@, message),
        number_member("sequence"@, sequence),
        text_member("test_field"@, test_field),
    ]
}

/// What the protocol test emits: a data item, a progress item at half way,
/// a second data item, and the end of the stream.
pub open spec fn protocol_plan() -> Seq<ItemView> {
    seq![
        ItemView::Data {
            content_type: "_debug.protocol_test"@,
            content: protocol_content("First test data item"@, 1, "validation_data"@),
        },
        ItemView::Progress { message: "Processing test sequence"@, percentage: 50 },
        ItemView::Data {
            content_type: "_debug.protocol_test"@,
            content: protocol_content("Second test data item"@, 2, "validation_complete"@),
        },
        ItemView::Done,
    ]
}

fn protocol_data(message: &str, sequence: u64, test_field: &str) -> (i: DebugItem)
    ensures
        i@ == (ItemView::Data {
            content_type: "_debug.protocol_test"@,
            content: protocol_content(message@, sequence as nat, test_field@),
        }),
{
    let mut content: Vec<(String, DebugValue)> = Vec::new();
    content.push(text_field("message", message));
    content.push(number_field("sequence", sequence));
    content.push(text_field("test_field", test_field));
    assert(fields_view(content@) =~= protocol_content(message@, sequence as nat, test_field@));
    DebugItem::Data { content_type: String::from_str("_debug.protocol_test"), content }
}

/// The items of the protocol test stream, one of each message kind.
pub fn protocol_test_items() -> (items: Vec<DebugItem>)
    ensures
        items_view(items@) == protocol_plan(),
{
    let mut items: Vec<DebugItem> = Vec::new();
    items.push(protocol_data("First test data item", 1, "validation_data"));
    items.push(DebugItem::Progress {
        message: String::from_str("Processing test sequence"),
        percentage: 50,
    });
    items.push(protocol_data("Second test data item", 2, "validation_complete"));
    items.push(DebugItem::Done);
    assert(items_view(items@) =~= protocol_plan());
    items
}

// ---------------------------------------------------------------------------
// Error test
// ---------------------------------------------------------------------------

/// The error type of a request: its `error_type` parameter, `immediate`
/// when it has none.
pub open spec fn error_type_or_default(param: Option<Seq<char>>) -> Seq<char> {
    match param {
        Some(t) => t,
        None => "immediate"@,
    }
}

/// A data item of the error test.
pub open spec fn error_test_data(message: Seq<char>, sequence: nat) -> ItemView {
    ItemView::Data {
        content_type: "_debug.error_test"@,
        content: seq![text_member("message"@, message), number_member("sequence"@, sequence)],
    }
}

/// What the error test emits for `error_type`:
/// - `immediate`: an error before any data;
/// - `after_data`: three data items, then an error;
/// - `recoverable`: data, a recoverable error, then more data;
/// - anything else: an error that names the valid types.
/// Every stream ends with `Done`.
pub open spec fn error_plan(error_type: Seq<char>) -> Seq<ItemView> {
    if error_type == "immediate"@ {
        seq![
            ItemView::Error {
                message: "Immediate test error - error sent before any data"@,
                code: "test_error"@,
                recoverable: false,
            },
            ItemView::Done,
        ]
    } else if error_type == "after_data"@ {
        seq![
            error_test_data("First data item"@, 1),
            error_test_data("Second data item"@, 2),
            error_test_data("Third data item"@, 3),
            ItemView::Error {
                message: "Simulated failure after sending data"@,
                code: "simulated_failure"@,
                recoverable: false,
            },
            ItemView::Done,
        ]
    } else if error_type == "recoverable"@ {
        seq![
            error_test_data("Data before error"@, 1),
            ItemView::Error {
                message: "Recoverable error - stream continues after this"@,
                code: "recoverable_error"@,
                recoverable: true,
            },
            error_test_data("Data after error - stream recovered"@, 2),
            error_test_data("Final data item"@, 3),
            ItemView::Done,
        ]
    } else {
        seq![
            ItemView::Error {
                message: "Unknown error_type: '"@ + error_type
                    + "'. Valid types: immediate, after_data, recoverable"@,
                code: "invalid_error_type"@,
                recoverable: false,
            },
            ItemView::Done,
        ]
    }
}

fn error_data(message: &str, sequence: u64) -> (i: DebugItem)
    ensures
        i@ == error_test_data(message@, sequence as nat),
{
    let mut content: Vec<(String, DebugValue)> = Vec::new();
    content.push(text_field("message", message));
    content.push(number_field("sequence", sequence));
    assert(fields_view(content@) =~= seq![
        text_member("message"@, message@),
        number_member("sequence"@, sequence as nat),
    ]);
    DebugItem::Data { content_type: String::from_str("_debug.error_test"), content }
}

/// The items of the error test stream for `error_type`.
pub fn error_test_items(error_type: &str) -> (items: Vec<DebugItem>)
    ensures
        items_view(items@) == error_plan(error_type@),
{
    let mut items: Vec<DebugItem> = Vec::new();
    if same_text(error_type, "immediate") {
        items.push(error_item(
            String::from_str("Immediate test error - error sent before any data"),
            "test_error",
            false,
        ));
    } else if same_text(error_type, "after_data") {
        items.push(error_data("First data item", 1));
        items.push(error_data("Second data item", 2));
        items.push(error_data("Third data item", 3));
        items.push(error_item(
            String::from_str("Simulated failure after sending data"),
            "simulated_failure",
            false,
        ));
    } else if same_text(error_type, "recoverable") {
        items.push(error_data("Data before error", 1));
        items.push(error_item(
            String::from_str("Recoverable error - stream continues after this"),
            "recoverable_error",
            true,
        ));
        items.push(error_data("Data after error - stream recovered", 2));
        items.push(error_data("Final data item", 3));
    } else {
        let message = concat3(
            "Unknown error_type: '",
            error_type,
            "'. Valid types: immediate, after_data, recoverable",
        );
        items.push(error_item(message, "invalid_error_type", false));
    }
    items.push(DebugItem::Done);
    assert(items_view(items@) =~= error_plan(error_type@));
    items
}

// ---------------------------------------------------------------------------
// Stream test
// ---------------------------------------------------------------------------

/// The scenario of a request: its `scenario` parameter, `slow` when it has
/// none.
pub open spec fn scenario_or_default(param: Option<Seq<char>>) -> Seq<char> {
    match param {
        Some(s) => s,
        None => "slow"@,
    }
}

/// Chunk `i` of the large payload: `data_chunk_`, `i` in four digits with
/// leading zeros, and `_`.
pub open spec fn chunk(i: nat) -> Seq<char> {
    "data_chunk_"@ + seq![
        digit_char(i / 1000 % 10),
        digit_char(i / 100 % 10),
        digit_char(i / 10 % 10),
        digit_char(i % 10),
    ] + "_"@
}

/// The first `n` chunks, one after another.
pub open spec fn chunks(n: nat) -> Seq<char>
    decreases n,
{
    if n == 0 {
        Seq::empty()
    } else {
        chunks((n - 1) as nat) + chunk((n - 1) as nat)
    }
}

/// The payload of a `large` item, about 10KB: chunks 0 through 624,
/// 10000 characters in all.
pub open spec fn large_payload() -> Seq<char> {
    chunks(625)
}

/// The last step of every stream test: `Done`, sent at once.
pub open spec fn done_step() -> StepView {
    StepView { delay_ms: 0, item: ItemView::Done }
}

/// A data item of the stream test.
pub open spec fn stream_test_data(content: Seq<(Seq<char>, FieldView)>) -> ItemView {
    ItemView::Data { content_type: "_debug.stream_test"@, content }
}

/// Item `i` (from 0) of the `slow` scenario, sent after `100 + 20 i` ms.
pub open spec fn slow_step(i: nat) -> StepView {
    StepView {
        delay_ms: 100 + 20 * i,
        item: stream_test_data(seq![
            text_member("scenario"@, "slow"@),
            number_member("item"@, i + 1),
            number_member("total"@, 5),
            number_member("delay_ms"@, 100 + 20 * i),
        ]),
    }
}

/// Item `i` (from 0) of the `large` scenario, sent at once.
pub open spec fn large_step(i: nat) -> StepView {
    StepView {
        delay_ms: 0,
        item: stream_test_data(seq![
            text_member("scenario"@, "large"@),
            number_member("item"@, i + 1),
            number_member("total"@, 3),
            text_member("payload"@, large_payload()),
            number_member("size_bytes"@, large_payload().len()),
        ]),
    }
}

/// Item `i` (from 0) of the `many` scenario, sent after 1 ms.
pub open spec fn many_step(i: nat) -> StepView {
    StepView {
        delay_ms: 1,
        item: stream_test_data(seq![
            text_member("scenario"@, "many"@),
            number_member("item"@, i + 1),
            number_member("total"@, 100),
        ]),
    }
}

/// Step `i` (from 0) of the `progress` scenario, at `25 i` percent, sent
/// after 50 ms.
pub open spec fn progress_step(i: nat) -> StepView {
    StepView {
        delay_ms: 50,
        item: ItemView::Progress {
            message: "Processing step "@ + decimal(i + 1) + " of 5"@,
            percentage: 25 * i,
        },
    }
}

/// What the stream test emits for `scenario`:
/// - `slow`: 5 data items with growing delays;
/// - `large`: 3 data items with a large payload;
/// - `many`: 100 small data items;
/// - `progress`: 5 progress steps from 0 to 100 percent;
/// - anything else: an error that names the valid scenarios.
/// Every stream ends with `Done`.
pub open spec fn stream_plan(scenario: Seq<char>) -> Seq<StepView> {
    if scenario == "slow"@ {
        Seq::new(5, |i: int| slow_step(i as nat)).push(done_step())
    } else if scenario == "large"@ {
        Seq::new(3, |i: int| large_step(i as nat)).push(done_step())
    } else if scenario == "many"@ {
        Seq::new(100, |i: int| many_step(i as nat)).push(done_step())
    } else if scenario == "progress"@ {
        Seq::new(5, |i: int| progress_step(i as nat)).push(done_step())
    } else {
        seq![
            StepView {
                delay_ms: 0,
                item: ItemView::Error {
                    message: "Unknown scenario: '"@ + scenario
                        + "'. Valid scenarios: slow, large, many, progress"@,
                    code: "invalid_scenario"@,
                    recoverable: false,
                },
            },
            done_step(),
        ]
    }
}

proof fn lemma_chunks_len(n: nat)
    ensures
        chunks(n).len() == 16 * n,
    decreases n,
{
    reveal_strlit("data_chunk_");
    reveal_strlit("_");
    if n > 0 {
        lemma_chunks_len((n - 1) as nat);
    }
}

/// The payload of a `large` item and its length.
fn large_data() -> (r: (String, u64))
    ensures
        r.0@ == large_payload(),
        r.1 == large_payload().len(),
{
    let mut s = String::new();
    let mut i: u64 = 0;
    while i < 625
        invariant
            i <= 625,
            s@ == chunks(i as nat),
        decreases 625 - i,
    {
        let ghost before = s@;
        s.append("data_chunk_");
        s.append(crate::text::digit_str(i / 1000 % 10));
        s.append(crate::text::digit_str(i / 100 % 10));
        s.append(crate::text::digit_str(i / 10 % 10));
        s.append(crate::text::digit_str(i % 10));
        s.append("_");
        assert(s@ =~= before + chunk(i as nat));
        i += 1;
    }
    proof {
        lemma_chunks_len(625);
    }
    (s, 10000)
}

fn stream_data(content: Vec<(String, DebugValue)>) -> (i: DebugItem)
    ensures
        i@ == stream_test_data(fields_view(content@)),
{
    DebugItem::Data { content_type: String::from_str("_debug.stream_test"), content }
}

fn slow_item(i: u64) -> (s: DebugStep)
    requires
        i < 5,
    ensures
        s@ == slow_step(i as nat),
{
    let mut content: Vec<(String, DebugValue)> = Vec::new();
    content.push(text_field("scenario", "slow"));
    content.push(number_field("item", i + 1));
    content.push(number_field("total", 5));
    content.push(number_field("delay_ms", 100 + 20 * i));
    assert(fields_view(content@) =~= seq![
        text_member("scenario"@, "slow"@),
        number_member("item"@, (i + 1) as nat),
        number_member("total"@, 5),
        number_member("delay_ms"@, (100 + 20 * i) as nat),
    ]);
    DebugStep { delay_ms: 100 + 20 * i, item: stream_data(content) }
}

fn large_item(i: u64, payload: &String, size: u64) -> (s: DebugStep)
    requires
        i < 3,
        payload@ == large_payload(),
        size == large_payload().len(),
    ensures
        s@ == large_step(i as nat),
{
    let mut content: Vec<(String, DebugValue)> = Vec::new();
    content.push(text_field("scenario", "large"));
    content.push(number_field("item", i + 1));
    content.push(number_field("total", 3));
    content.push((String::from_str("payload"), DebugValue::Text(payload.clone())));
    content.push(number_field("size_bytes", size));
    assert(fields_view(content@) =~= seq![
        text_member("scenario"@, "large"@),
        number_member("item"@, (i + 1) as nat),
        number_member("total"@, 3),
        text_member("payload"@, large_payload()),
        number_member("size_bytes"@, large_payload().len()),
    ]);
    DebugStep { delay_ms: 0, item: stream_data(content) }
}

fn many_item(i: u64) -> (s: DebugStep)
    requires
        i < 100,
    ensures
        s@ == many_step(i as nat),
{
    let mut content: Vec<(String, DebugValue)> = Vec::new();
    content.push(text_field("scenario", "many"));
    content.push(number_field("item", i + 1));
    content.push(number_field("total", 100));
    assert(fields_view(content@) =~= seq![
        text_member("scenario"@, "many"@),
        number_member("item"@, (i + 1) as nat),
        number_member("total"@, 100),
    ]);
    DebugStep { delay_ms: 1, item: stream_data(content) }
}

fn progress_item(i: u64) -> (s: DebugStep)
    requires
        i < 5,
    ensures
        s@ == progress_step(i as nat),
{
    let number = decimal_string(i + 1);
    let message = concat3("Processing step ", number.as_str(), " of 5");
    DebugStep { delay_ms: 50, item: DebugItem::Progress { message, percentage: 25 * i } }
}

fn done_item() -> (s: DebugStep)
    ensures
        s@ == done_step(),
{
    DebugStep { delay_ms: 0, item: DebugItem::Done }
}

/// The steps of the stream test for `scenario`.
pub fn stream_test_steps(scenario: &str) -> (steps: Vec<DebugStep>)
    ensures
        steps_view(steps@) == stream_plan(scenario@),
{
    let mut steps: Vec<DebugStep> = Vec::new();
    if same_text(scenario, "slow") {
        let mut i: u64 = 0;
        while i < 5
            invariant
                i <= 5,
                steps@.len() == i,
                forall|j: int| 0 <= j < i ==> #[trigger] steps@[j]@ == slow_step(j as nat),
            decreases 5 - i,
        {
            steps.push(slow_item(i));
            i += 1;
        }
    } else if same_text(scenario, "large") {
        let (payload, size) = large_data();
        let mut i: u64 = 0;
        while i < 3
            invariant
                i <= 3,
                payload@ == large_payload(),
                size == large_payload().len(),
                steps@.len() == i,
                forall|j: int| 0 <= j < i ==> #[trigger] steps@[j]@ == large_step(j as nat),
            decreases 3 - i,
        {
            steps.push(large_item(i, &payload, size));
            i += 1;
        }
    } else if same_text(scenario, "many") {
        let mut i: u64 = 0;
        while i < 100
            invariant
                i <= 100,
                steps@.len() == i,
                forall|j: int| 0 <= j < i ==> #[trigger] steps@[j]@ == many_step(j as nat),
            decreases 100 - i,
        {
            steps.push(many_item(i));
            i += 1;
        }
    } else if same_text(scenario, "progress") {
        let mut i: u64 = 0;
        while i < 5
            invariant
                i <= 5,
                steps@.len() == i,
                forall|j: int| 0 <= j < i ==> #[trigger] steps@[j]@ == progress_step(j as nat),
            decreases 5 - i,
        {
            steps.push(progress_item(i));
            i += 1;
        }
    } else {
        let message = concat3(
            "Unknown scenario: '",
            scenario,
            "'. Valid scenarios: slow, large, many, progress",
        );
        steps.push(DebugStep { delay_ms: 0, item: error_item(message, "invalid_scenario", false) });
    }
    steps.push(done_item());
    assert(steps_view(steps@) =~= stream_plan(scenario@));
    steps
}

/// The metadata of each item of the protocol, stream and error tests:
/// provenance `["_debug"]`, the hub's hash, and the current time.
pub fn debug_metadata(plexus_hash: String) -> (m: StreamMetadata)
    ensures
        views(m.provenance@) == seq!["_debug"@],
        m.plexus_hash == plexus_hash,
{
    StreamMetadata::new(path1("_debug"), plexus_hash)
}

// ---------------------------------------------------------------------------
// Metadata test
// ---------------------------------------------------------------------------

/// The value of stream metadata: provenance, hash and timestamp.
pub open spec fn metadata_view(m: StreamMetadata) -> (Seq<Seq<char>>, Seq<char>, int) {
    (views(m.provenance@), m.plexus_hash@, m.timestamp as int)
}

/// A data item of the metadata test.
pub open spec fn metadata_case(test: Seq<char>, description: Seq<char>) -> ItemView {
    ItemView::Data {
        content_type: "_debug.metadata_test"@,
        content: seq![text_member("test"@, test), text_member("description"@, description)],
    }
}

/// What the metadata test emits: items whose fixed metadata covers edge
/// cases of provenance chains, hashes and timestamps, all valid.
pub open spec fn metadata_plan() -> Seq<((Seq<Seq<char>>, Seq<char>, int), ItemView)> {
    seq![
        (
            (seq!["_debug"@], "0123456789abcdef"@, 1609459200),
            metadata_case("single_provenance"@, "Simplest metadata with single provenance item"@),
        ),
        (
            (seq!["root"@, "middle"@, "leaf"@], "fedcba9876543210"@, 1640995200),
            metadata_case("nested_provenance"@, "Metadata with 3-level nested provenance chain"@),
        ),
        (
            (seq!["a"@, "b"@, "c"@, "d"@, "e"@, "f"@], "123456789abcdef0"@, 1672531200),
            metadata_case("long_provenance"@, "Metadata with 6-item provenance chain"@),
        ),
        (
            (seq!["parent"@, "child"@, "grandchild"@], "abcdef0123456789"@, 1704067200),
            metadata_case(
                "parent_child_grandchild"@,
                "Metadata with parent->child->grandchild provenance"@,
            ),
        ),
        (
            (seq!["_debug"@], "9876543210fedcba"@, 1735689600),
            metadata_case(
                "different_hash_timestamp"@,
                "Metadata with different hash and recent timestamp"@,
            ),
        ),
        ((seq!["_debug"@], "0000000000000000"@, 1735689600), ItemView::Done),
    ]
}

fn metadata(provenance: Vec<String>, hash: &str, timestamp: i64) -> (m: StreamMetadata)
    ensures
        metadata_view(m) == (views(provenance@), hash@, timestamp as int),
{
    StreamMetadata { provenance, plexus_hash: String::from_str(hash), timestamp }
}

fn path1(a: &str) -> (v: Vec<String>)
    ensures
        views(v@) == seq![a@],
{
    let mut v: Vec<String> = Vec::new();
    v.push(String::from_str(a));
    assert(views(v@) =~= seq![a@]);
    v
}

fn path3(a: &str, b: &str, c: &str) -> (v: Vec<String>)
    ensures
        views(v@) == seq![a@, b@, c@],
{
    let mut v: Vec<String> = Vec::new();
    v.push(String::from_str(a));
    v.push(String::from_str(b));
    v.push(String::from_str(c));
    assert(views(v@) =~= seq![a@, b@, c@]);
    v
}

fn path6(a: &str, b: &str, c: &str, d: &str, e: &str, f: &str) -> (v: Vec<String>)
    ensures
        views(v@) == seq![a@, b@, c@, d@, e@, f@],
{
    let mut v: Vec<String> = Vec::new();
    v.push(String::from_str(a));
    v.push(String::from_str(b));
    v.push(String::from_str(c));
    v.push(String::from_str(d));
    v.push(String::from_str(e));
    v.push(String::from_str(f));
    assert(views(v@) =~= seq![a@, b@, c@, d@, e@, f@]);
    v
}

fn metadata_data(test: &str, description: &str) -> (i: DebugItem)
    ensures
        i@ == metadata_case(test@, description@),
{
    let mut content: Vec<(String, DebugValue)> = Vec::new();
    content.push(text_field("test", test));
    content.push(text_field("description", description));
    assert(fields_view(content@) =~= seq![
        text_member("test"@, test@),
        text_member("description"@, description@),
    ]);
    DebugItem::Data { content_type: String::from_str("_debug.metadata_test"), content }
}

/// The items of the metadata test stream, each with its own fixed metadata.
pub fn metadata_test_items() -> (items: Vec<(StreamMetadata, DebugItem)>)
    ensures
        items@.map_values(|e: (StreamMetadata, DebugItem)| (metadata_view(e.0), e.1@))
            == metadata_plan(),
{
    let mut items: Vec<(StreamMetadata, DebugItem)> = Vec::new();
    items.push((
        metadata(path1("_debug"), "0123456789abcdef", 1609459200),
        metadata_data("single_provenance", "Simplest metadata with single provenance item"),
    ));
    items.push((
        metadata(path3("root", "middle", "leaf"), "fedcba9876543210", 1640995200),
        metadata_data("nested_provenance", "Metadata with 3-level nested provenance chain"),
    ));
    items.push((
        metadata(path6("a", "b", "c", "d", "e", "f"), "123456789abcdef0", 1672531200),
        metadata_data("long_provenance", "Metadata with 6-item provenance chain"),
    ));
    items.push((
        metadata(path3("parent", "child", "grandchild"), "abcdef0123456789", 1704067200),
        metadata_data(
            "parent_child_grandchild",
            "Metadata with parent->child->grandchild provenance",
        ),
    ));
    items.push((
        metadata(path1("_debug"), "9876543210fedcba", 1735689600),
        metadata_data(
            "different_hash_timestamp",
            "Metadata with different hash and recent timestamp",
        ),
    ));
    items.push((metadata(path1("_debug"), "0000000000000000", 1735689600), DebugItem::Done));
    assert(items@.map_values(|e: (StreamMetadata, DebugItem)| (metadata_view(e.0), e.1@))
        =~= metadata_plan());
    items
}

// ---------------------------------------------------------------------------
// Requests
// ---------------------------------------------------------------------------

/// The steps of the stream test for the `scenario` parameter of `params`:
/// the scenario its string member `scenario` names, `slow` when `params`
/// has no such string member.
pub fn stream_test_plan(params: &Value) -> (steps: Vec<DebugStep>)
    ensures
        steps_view(steps@) == stream_plan(scenario_or_default(json_text_member(*params, "scenario"@))),
{
    match json_str_member(params, "scenario") {
        Some(s) => stream_test_steps(s.as_str()),
        None => stream_test_steps("slow"),
    }
}

/// The items of the error test for the `error_type` parameter of
/// `params`: the type its string member `error_type` names, `immediate`
/// when `params` has no such string member.
pub fn error_test_plan(params: &Value) -> (items: Vec<DebugItem>)
    ensures
        items_view(items@) == error_plan(error_type_or_default(json_text_member(*params, "error_type"@))),
{
    match json_str_member(params, "error_type") {
        Some(t) => error_test_items(t.as_str()),
        None => error_test_items("immediate"),
    }
}

// ---------------------------------------------------------------------------
// Laws
// ---------------------------------------------------------------------------

/// Every stream test scenario, known or not, ends its stream with `Done`,
/// and `Done` comes nowhere before the end.
pub proof fn lemma_stream_plan_ends_with_done(scenario: Seq<char>)
    ensures
        stream_plan(scenario).len() > 0,
        stream_plan(scenario).last().item is Done,
        forall|i: int| 0 <= i < stream_plan(scenario).len() - 1
            ==> !(#[trigger] stream_plan(scenario)[i].item is Done),
{
}

/// Every error test scenario, known or not, ends its stream with `Done`,
/// and `Done` comes nowhere before the end: an error does not end it.
pub proof fn lemma_error_plan_ends_with_done(error_type: Seq<char>)
    ensures
        error_plan(error_type).len() > 0,
        error_plan(error_type).last() is Done,
        forall|i: int| 0 <= i < error_plan(error_type).len() - 1
            ==> !(#[trigger] error_plan(error_type)[i] is Done),
{
}

} // verus!

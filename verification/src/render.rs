//! The presenter: the text shown for the payload of each known command.

use vstd::prelude::*;
use crate::json::{
    compact_text, display_value, documents, error_message, json_of, pretty_text, value_as_array,
    value_as_str, value_get, value_is_null, write_pretty, Json,
};
use crate::outcome::{written, Failure, FailureView};
use crate::text::{blanks, lowercase, lowercase_of, spaces, text_equal};

verus! {

/// The commands that have a view of their own, and all the others.
#[derive(Clone, Copy, Debug, PartialEq, Eq, Structural)]
pub enum Command {
    List,
    GetSelf,
    GetPeers,
    GetTree,
    Other,
}

/// The command that a name in lower case stands for.
pub open spec fn command_named(lowered: Seq<char>) -> Command {
    if lowered == "list"@ {
        Command::List
    } else if lowered == "getself"@ {
        Command::GetSelf
    } else if lowered == "getpeers"@ {
        Command::GetPeers
    } else if lowered == "gettree"@ {
        Command::GetTree
    } else {
        Command::Other
    }
}

/// The command that a name stands for, whatever its case.
pub open spec fn command_of(name: Seq<char>) -> Command {
    command_named(lowercase_of(name))
}

impl Command {
    /// The command that a name in lower case stands for.
    pub fn from_lowercase(lowered: &str) -> (command: Command)
        ensures
            command == command_named(lowered@),
    {
        if text_equal(lowered, "list") {
            Command::List
        } else if text_equal(lowered, "getself") {
            Command::GetSelf
        } else if text_equal(lowered, "getpeers") {
            Command::GetPeers
        } else if text_equal(lowered, "gettree") {
            Command::GetTree
        } else {
            Command::Other
        }
    }

    /// The command that a name stands for, whatever its case.
    pub fn parse(name: &str) -> (command: Command)
        ensures
            command == command_of(name@),
    {
        let lowered = lowercase(name);
        Command::from_lowercase(lowered.as_str())
    }
}

/// One row of a key-value block: the label shown and the member it shows.
#[derive(Clone, Copy, Debug, PartialEq, Eq)]
pub struct Field {
    pub label: &'static str,
    pub key: &'static str,
}

/// A row of a key-value block as a mathematical value.
pub struct FieldView {
    pub label: Seq<char>,
    pub key: Seq<char>,
}

impl View for Field {
    type V = FieldView;

    open spec fn view(&self) -> FieldView {
        FieldView { label: self.label@, key: self.key@ }
    }
}

/// The rows of a table as mathematical values.
pub open spec fn field_views(fields: Seq<Field>) -> Seq<FieldView> {
    Seq::new(fields.len(), |i: int| fields[i]@)
}

/// The rows shown for `getself`.
pub open spec fn self_fields() -> Seq<FieldView> {
    seq![
        FieldView { label: "Build name"@, key: "build_name"@ },
        FieldView { label: "Build version"@, key: "build_version"@ },
        FieldView { label: "Public key"@, key: "key"@ },
        FieldView { label: "IPv6 address"@, key: "address"@ },
        FieldView { label: "IPv6 subnet"@, key: "subnet"@ },
        FieldView { label: "Routing entries"@, key: "routing_entries"@ },
    ]
}

/// The rows shown for each peer of `getpeers`.
pub open spec fn peer_fields() -> Seq<FieldView> {
    seq![
        FieldView { label: "URI"@, key: "uri"@ },
        FieldView { label: "Up"@, key: "up"@ },
        FieldView { label: "Inbound"@, key: "inbound"@ },
        FieldView { label: "Public key"@, key: "key"@ },
        FieldView { label: "IPv6 address"@, key: "address"@ },
        FieldView { label: "IPv6 subnet"@, key: "subnet"@ },
        FieldView { label: "Priority"@, key: "priority"@ },
        FieldView { label: "Bytes received"@, key: "bytes_recvd"@ },
        FieldView { label: "Bytes sent"@, key: "bytes_sent"@ },
        FieldView { label: "RX rate"@, key: "rx_rate"@ },
        FieldView { label: "TX rate"@, key: "tx_rate"@ },
        FieldView { label: "Uptime"@, key: "uptime"@ },
        FieldView { label: "Last error"@, key: "last_error"@ },
    ]
}

/// The rows shown for each entry of `gettree`.
pub open spec fn tree_fields() -> Seq<FieldView> {
    seq![
        FieldView { label: "Public key"@, key: "key"@ },
        FieldView { label: "IPv6 address"@, key: "address"@ },
        FieldView { label: "Parent"@, key: "parent"@ },
        FieldView { label: "Sequence"@, key: "sequence"@ },
    ]
}

/// The rows shown for `getself`.
pub fn self_table() -> (fields: Vec<Field>)
    ensures
        field_views(fields@) == self_fields(),
{
    let fields = vec![
        Field { label: "Build name", key: "build_name" },
        Field { label: "Build version", key: "build_version" },
        Field { label: "Public key", key: "key" },
        Field { label: "IPv6 address", key: "address" },
        Field { label: "IPv6 subnet", key: "subnet" },
        Field { label: "Routing entries", key: "routing_entries" },
    ];
    assert(field_views(fields@) =~= self_fields());
    fields
}

/// The rows shown for each peer of `getpeers`.
pub fn peer_table() -> (fields: Vec<Field>)
    ensures
        field_views(fields@) == peer_fields(),
{
    let fields = vec![
        Field { label: "URI", key: "uri" },
        Field { label: "Up", key: "up" },
        Field { label: "Inbound", key: "inbound" },
        Field { label: "Public key", key: "key" },
        Field { label: "IPv6 address", key: "address" },
        Field { label: "IPv6 subnet", key: "subnet" },
        Field { label: "Priority", key: "priority" },
        Field { label: "Bytes received", key: "bytes_recvd" },
        Field { label: "Bytes sent", key: "bytes_sent" },
        Field { label: "RX rate", key: "rx_rate" },
        Field { label: "TX rate", key: "tx_rate" },
        Field { label: "Uptime", key: "uptime" },
        Field { label: "Last error", key: "last_error" },
    ];
    assert(field_views(fields@) =~= peer_fields());
    fields
}

/// The rows shown for each entry of `gettree`.
pub fn tree_table() -> (fields: Vec<Field>)
    ensures
        field_views(fields@) == tree_fields(),
{
    let fields = vec![
        Field { label: "Public key", key: "key" },
        Field { label: "IPv6 address", key: "address" },
        Field { label: "Parent", key: "parent" },
        Field { label: "Sequence", key: "sequence" },
    ];
    assert(field_views(fields@) =~= tree_fields());
    fields
}

/// How a member is shown: a string verbatim, `null` as `n/a`, a boolean as
/// `true` or `false`, a number by its digits, an array or an object as its
/// compact JSON.
pub open spec fn shown(value: Json) -> Seq<char> {
    match value {
        Json::Text(text) => text,
        Json::Null => "n/a"@,
        Json::Boolean(flag) => if flag {
            "true"@
        } else {
            "false"@
        },
        Json::Number(digits) => digits,
        _ => compact_text(value),
    }
}

/// The length of the longest label of a table.
pub open spec fn longest_label(fields: Seq<FieldView>) -> nat
    decreases fields.len(),
{
    if fields.len() == 0 {
        0
    } else {
        let earlier = longest_label(fields.drop_last());
        if fields.last().label.len() > earlier {
            fields.last().label.len()
        } else {
            earlier
        }
    }
}

/// The number of spaces that fill a label up to one more than `width`; none
/// for a label that is longer than that.
pub open spec fn padding(label: Seq<char>, width: nat) -> nat {
    if label.len() <= width {
        (width + 1 - label.len()) as nat
    } else {
        0
    }
}

/// One line of a key-value block: two spaces, the label and a colon, the
/// padding of the label, two spaces, the value.
pub open spec fn field_line(label: Seq<char>, width: nat, value: Seq<char>) -> Seq<char> {
    "  "@ + label + ":"@ + blanks(padding(label, width)) + "  "@ + value + "\n"@
}

/// What one row shows of a record: a line with the member under the row's
/// key where the record has one, nothing where it has none.
pub open spec fn row(record: Json, field: FieldView, width: nat) -> Seq<char> {
    match record.member(field.key) {
        Some(value) => field_line(field.label, width, shown(value)),
        None => Seq::empty(),
    }
}

/// The lines of a key-value block: what each row shows, in the order of the rows.
pub open spec fn record_lines(record: Json, fields: Seq<FieldView>, width: nat) -> Seq<char>
    decreases fields.len(),
{
    if fields.len() == 0 {
        Seq::empty()
    } else {
        record_lines(record, fields.drop_last(), width) + row(record, fields.last(), width)
    }
}

/// The key-value block of a record, aligned to the longest label of the table.
pub open spec fn record_block(record: Json, fields: Seq<FieldView>) -> Seq<char> {
    record_lines(record, fields, longest_label(fields))
}

/// One indented line for each string among `items`; other items show nothing.
pub open spec fn command_lines(items: Seq<Json>) -> Seq<char>
    decreases items.len(),
{
    if items.len() == 0 {
        Seq::empty()
    } else {
        command_lines(items.drop_last()) + match items.last() {
            Json::Text(name) => "  "@ + name + "\n"@,
            _ => Seq::empty(),
        }
    }
}

/// The view of `list`: a header line and the names in the payload's `list`,
/// or nothing where the payload has no such array.
pub open spec fn list_text(payload: Json) -> Seq<char> {
    match payload.member("list"@) {
        Some(Json::List(items)) => "Available commands:"@ + "\n"@ + command_lines(items),
        _ => Seq::empty(),
    }
}

/// The key-value blocks of some records, with one empty line between each two.
pub open spec fn blocks(records: Seq<Json>, fields: Seq<FieldView>) -> Seq<char>
    decreases records.len(),
{
    if records.len() == 0 {
        Seq::empty()
    } else if records.len() == 1 {
        record_block(records[0], fields)
    } else {
        blocks(records.drop_last(), fields) + "\n"@ + record_block(records.last(), fields)
    }
}

/// The view of an array of records under `key`: the line `nothing` where the
/// array is empty, the blocks of its records otherwise, and no text at all
/// where the payload has no such array.
pub open spec fn table_text(
    payload: Json,
    key: Seq<char>,
    nothing: Seq<char>,
    fields: Seq<FieldView>,
) -> Seq<char> {
    match payload.member(key) {
        Some(Json::List(records)) => if records.len() == 0 {
            nothing + "\n"@
        } else {
            blocks(records, fields)
        },
        _ => Seq::empty(),
    }
}

/// The text shown for the payload of a command.
pub open spec fn rendered(command: Command, payload: Json) -> Seq<char> {
    match command {
        Command::List => list_text(payload),
        Command::GetSelf => record_block(payload, self_fields()),
        Command::GetPeers => table_text(payload, "peers"@, "No peers connected."@, peer_fields()),
        Command::GetTree => table_text(payload, "tree"@, "No tree entries."@, tree_fields()),
        Command::Other => pretty_text(payload) + "\n"@,
    }
}

/// How a member is shown.
pub fn show(value: &serde_json::Value) -> (text: String)
    ensures
        text@ == shown(json_of(*value)),
{
    match value_as_str(value) {
        Some(text) => text.to_owned(),
        None => if value_is_null(value) {
            "n/a".to_owned()
        } else {
            display_value(value)
        },
    }
}

/// The length of the longest label of a table.
pub fn label_width(fields: &[Field]) -> (width: usize)
    ensures
        width == longest_label(field_views(fields@)),
{
    let ghost views = field_views(fields@);
    let mut width: usize = 0;
    let mut index: usize = 0;
    while index < fields.len()
        invariant
            index <= fields@.len(),
            views == field_views(fields@),
            width == longest_label(views.take(index as int)),
        decreases fields@.len() - index,
    {
        proof {
            assert(views.take(index + 1).drop_last() =~= views.take(index as int));
        }
        let length = fields[index].label.unicode_len();
        if length > width {
            width = length;
        }
        index += 1;
    }
    proof {
        assert(views.take(index as int) =~= views);
    }
    width
}

/// No label of a table is longer than its longest.
pub proof fn lemma_label_fits(fields: Seq<FieldView>, index: int)
    requires
        0 <= index < fields.len(),
    ensures
        fields[index].label.len() <= longest_label(fields),
    decreases fields.len(),
{
    if index < fields.len() - 1 {
        lemma_label_fits(fields.drop_last(), index);
    }
}

/// Appends one line of a key-value block to `out`.
pub fn push_field_line(out: &mut String, label: &str, width: usize, value: &str)
    ensures
        final(out)@ == old(out)@ + field_line(label@, width as nat, value@),
{
    let length = label.unicode_len();
    out.append("  ");
    out.append(label);
    out.append(":");
    if length <= width {
        let fill = spaces(width - length);
        out.append(fill.as_str());
        out.append(" ");
        proof {
            assert(blanks(padding(label@, width as nat)) == blanks((width - length) as nat) + " "@);
        }
    }
    out.append("  ");
    out.append(value);
    out.append("\n");
    proof {
        assert(out@ =~= old(out)@ + field_line(label@, width as nat, value@));
    }
}

/// Appends the key-value block of `record` to `out`.
pub fn push_record(out: &mut String, record: &serde_json::Value, fields: &[Field])
    ensures
        final(out)@ == old(out)@ + record_block(json_of(*record), field_views(fields@)),
{
    let ghost views = field_views(fields@);
    let ghost document = json_of(*record);
    let width = label_width(fields);
    let mut index: usize = 0;
    while index < fields.len()
        invariant
            index <= fields@.len(),
            views == field_views(fields@),
            document == json_of(*record),
            width == longest_label(views),
            out@ == old(out)@ + record_lines(document, views.take(index as int), width as nat),
        decreases fields@.len() - index,
    {
        proof {
            assert(views.take(index + 1).drop_last() =~= views.take(index as int));
            lemma_label_fits(views, index as int);
        }
        let ghost before = out@;
        match value_get(record, fields[index].key) {
            Some(value) => {
                let text = show(value);
                push_field_line(out, fields[index].label, width, text.as_str());
            },
            None => {
                assert(out@ =~= before + Seq::<char>::empty());
            },
        }
        proof {
            assert(out@ =~= old(out)@ + record_lines(
                document,
                views.take(index + 1),
                width as nat,
            ));
        }
        index += 1;
    }
    proof {
        assert(views.take(index as int) =~= views);
    }
}

/// The key-value block of `record`.
pub fn render_record(record: &serde_json::Value, fields: &[Field]) -> (text: String)
    ensures
        text@ == record_block(json_of(*record), field_views(fields@)),
{
    let mut text = String::new();
    push_record(&mut text, record, fields);
    text
}

/// The view of `list`.
pub fn render_list(payload: &serde_json::Value) -> (text: String)
    ensures
        text@ == list_text(json_of(*payload)),
{
    let mut text = String::new();
    let items = match value_get(payload, "list") {
        Some(list) => match value_as_array(list) {
            Some(items) => items,
            None => {
                return text;
            },
        },
        None => {
            return text;
        },
    };
    let ghost names = documents(items@);
    text.append("Available commands:");
    text.append("\n");
    let mut index: usize = 0;
    while index < items.len()
        invariant
            index <= items@.len(),
            names == documents(items@),
            text@ == "Available commands:"@ + "\n"@ + command_lines(names.take(index as int)),
        decreases items@.len() - index,
    {
        proof {
            assert(names.take(index + 1).drop_last() =~= names.take(index as int));
        }
        match value_as_str(&items[index]) {
            Some(name) => {
                text.append("  ");
                text.append(name);
                text.append("\n");
            },
            None => {},
        }
        proof {
            assert(text@ =~= "Available commands:"@ + "\n"@ + command_lines(
                names.take(index + 1),
            ));
        }
        index += 1;
    }
    proof {
        assert(names.take(index as int) =~= names);
    }
    text
}

/// The view of the array of records under `key`.
pub fn render_table(payload: &serde_json::Value, key: &str, nothing: &str, fields: &[Field]) -> (text: String)
    ensures
        text@ == table_text(json_of(*payload), key@, nothing@, field_views(fields@)),
{
    let mut text = String::new();
    let records = match value_get(payload, key) {
        Some(list) => match value_as_array(list) {
            Some(records) => records,
            None => {
                return text;
            },
        },
        None => {
            return text;
        },
    };
    if records.len() == 0 {
        text.append(nothing);
        text.append("\n");
        return text;
    }
    let ghost rows = documents(records@);
    let ghost views = field_views(fields@);
    push_record(&mut text, &records[0], fields);
    proof {
        assert(text@ =~= record_block(rows[0], views));
        assert(rows.take(1)[0] == rows[0]);
    }
    let mut index: usize = 1;
    while index < records.len()
        invariant
            1 <= index <= records@.len(),
            rows == documents(records@),
            views == field_views(fields@),
            text@ == blocks(rows.take(index as int), views),
        decreases records@.len() - index,
    {
        proof {
            assert(rows.take(index + 1).drop_last() =~= rows.take(index as int));
        }
        text.append("\n");
        push_record(&mut text, &records[index], fields);
        index += 1;
    }
    proof {
        assert(rows.take(index as int) =~= rows);
    }
    text
}

/// A document in full: its indented JSON text and a newline.
pub fn render_document(document: &serde_json::Value) -> (text: Result<String, Failure>)
    ensures
        text matches Ok(line) && line@ == pretty_text(json_of(*document)) + "\n"@,
{
    match write_pretty(document) {
        Ok(body) => written(Ok(body)),
        Err(error) => written(Err(error_message(&error))),
    }
}

/// The text shown for the payload of `command`: the view of a command that
/// has one, the payload in full for any other.
pub fn render(command: Command, payload: &serde_json::Value) -> (text: Result<String, Failure>)
    ensures
        text matches Ok(shown) && shown@ == rendered(command, json_of(*payload)),
{
    match command {
        Command::List => Ok(render_list(payload)),
        Command::GetSelf => {
            let fields = self_table();
            Ok(render_record(payload, fields.as_slice()))
        },
        Command::GetPeers => {
            let fields = peer_table();
            Ok(render_table(payload, "peers", "No peers connected.", fields.as_slice()))
        },
        Command::GetTree => {
            let fields = tree_table();
            Ok(render_table(payload, "tree", "No tree entries.", fields.as_slice()))
        },
        Command::Other => render_document(payload),
    }
}

/// A member that is present with the value `null` shows as `n/a`.
pub proof fn lemma_null_shows_placeholder(record: Json, field: FieldView, width: nat)
    requires
        record.member(field.key) == Some(Json::Null),
    ensures
        row(record, field, width) == field_line(field.label, width, "n/a"@),
{
}

/// A member that the record does not have shows nothing: its row has no line.
pub proof fn lemma_absent_shows_nothing(record: Json, field: FieldView, width: nat)
    requires
        record.member(field.key) is None,
    ensures
        row(record, field, width) == Seq::<char>::empty(),
{
}

/// The lines of a block are what its rows show, one after the other: a row
/// shows the same wherever it stands in the table.
pub proof fn lemma_rows_in_order(
    record: Json,
    before: Seq<FieldView>,
    field: FieldView,
    after: Seq<FieldView>,
    width: nat,
)
    ensures
        record_lines(record, before.push(field) + after, width) == record_lines(
            record,
            before,
            width,
        ) + row(record, field, width) + record_lines(record, after, width),
    decreases after.len(),
{
    let fields = before.push(field) + after;
    if after.len() == 0 {
        assert(fields =~= before.push(field));
        assert(fields.drop_last() =~= before);
        assert(record_lines(record, fields, width) =~= record_lines(record, before, width) + row(
            record,
            field,
            width,
        ) + record_lines(record, after, width));
    } else {
        let shorter = before.push(field) + after.drop_last();
        assert(fields.drop_last() =~= shorter);
        assert(fields.last() == after.last());
        lemma_rows_in_order(record, before, field, after.drop_last(), width);
        assert(record_lines(record, fields, width) =~= record_lines(record, before, width) + row(
            record,
            field,
            width,
        ) + record_lines(record, after, width));
    }
}

/// An empty array of records shows as the one line that says so, and nothing else.
pub proof fn lemma_empty_table(payload: Json, key: Seq<char>, nothing: Seq<char>, fields: Seq<FieldView>)
    requires
        payload.member(key) == Some(Json::List(Seq::empty())),
    ensures
        table_text(payload, key, nothing, fields) == nothing + "\n"@,
{
}

/// With an empty array of peers, `getpeers` shows one line and nothing else.
pub proof fn lemma_no_peers(payload: Json)
    requires
        payload.member("peers"@) == Some(Json::List(Seq::empty())),
    ensures
        rendered(Command::GetPeers, payload) == "No peers connected."@ + "\n"@,
{
}

/// With an empty array of entries, `gettree` shows one line and nothing else.
pub proof fn lemma_no_tree_entries(payload: Json)
    requires
        payload.member("tree"@) == Some(Json::List(Seq::empty())),
    ensures
        rendered(Command::GetTree, payload) == "No tree entries."@ + "\n"@,
{
}

/// Two records show as their two blocks with exactly one empty line between them.
pub proof fn lemma_two_blocks(first: Json, second: Json, fields: Seq<FieldView>)
    ensures
        blocks(seq![first, second], fields) == record_block(first, fields) + "\n"@ + record_block(
            second,
            fields,
        ),
{
    let records = seq![first, second];
    assert(records.drop_last() =~= seq![first]);
    assert(records.drop_last()[0] == first);
    assert(blocks(records.drop_last(), fields) == record_block(first, fields));
}

/// With two peers, `getpeers` shows the block of the first, one empty line,
/// and the block of the second.
pub proof fn lemma_two_peers(payload: Json, first: Json, second: Json)
    requires
        payload.member("peers"@) == Some(Json::List(seq![first, second])),
    ensures
        rendered(Command::GetPeers, payload) == record_block(first, peer_fields()) + "\n"@
            + record_block(second, peer_fields()),
{
    lemma_two_blocks(first, second, peer_fields());
}

} // verus!

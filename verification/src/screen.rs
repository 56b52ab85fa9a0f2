//! What the window shows.

use crate::app::Message;
use crate::text::{decimal, decimal_text};
use crate::types::ProxyEntry;
use vstd::prelude::*;

verus! {

/// Which field is typed in.
#[derive(Debug, Clone, Copy, PartialEq, Eq, Structural)]
pub enum Field {
    UpstreamUrl,
    BindAddr,
    BindPort,
}

/// A field to type in.
#[derive(Debug, Clone)]
pub struct InputField {
    pub field: Field,
    pub placeholder: String,
    pub value: String,
}

/// A request in the list.
#[derive(Debug, Clone)]
pub struct EntryRow {
    pub label: String,
    pub on_press: Message,
    pub selected: bool,
}

/// A part of a request's details.
#[derive(Debug, Clone)]
pub struct Section {
    pub title: String,
    pub text: String,
}

/// The pane beside the list.
#[derive(Debug, Clone)]
pub enum Detail {
    /// No request is shown, only a hint.
    Hint(String),
    /// The details of a request.
    Sections(Vec<Section>),
}

/// All that the window shows. A button without a message cannot be pressed.
#[derive(Debug, Clone)]
pub struct Screen {
    pub upstream_url: InputField,
    pub bind_addr: InputField,
    pub bind_port: InputField,
    pub start: Option<Message>,
    pub stop: Option<Message>,
    pub status: String,
    pub rows: Vec<EntryRow>,
    pub detail: Detail,
}

/// An [`InputField`] as values that can be compared.
pub struct InputModel {
    pub field: Field,
    pub placeholder: Seq<char>,
    pub value: Seq<char>,
}

impl View for InputField {
    type V = InputModel;

    open spec fn view(&self) -> InputModel {
        InputModel { field: self.field, placeholder: self.placeholder@, value: self.value@ }
    }
}

/// An [`EntryRow`] as values that can be compared.
pub struct RowModel {
    pub label: Seq<char>,
    pub on_press: Message,
    pub selected: bool,
}

impl View for EntryRow {
    type V = RowModel;

    open spec fn view(&self) -> RowModel {
        RowModel { label: self.label@, on_press: self.on_press, selected: self.selected }
    }
}

/// A [`Section`] as values that can be compared.
pub struct SectionModel {
    pub title: Seq<char>,
    pub text: Seq<char>,
}

impl View for Section {
    type V = SectionModel;

    open spec fn view(&self) -> SectionModel {
        SectionModel { title: self.title@, text: self.text@ }
    }
}

/// A [`Detail`] as values that can be compared.
pub enum DetailModel {
    Hint(Seq<char>),
    Sections(Seq<SectionModel>),
}

impl View for Detail {
    type V = DetailModel;

    open spec fn view(&self) -> DetailModel {
        match self {
            Detail::Hint(text) => DetailModel::Hint(text@),
            Detail::Sections(sections) => DetailModel::Sections(
                sections@.map_values(|s: Section| s@),
            ),
        }
    }
}

/// A [`Screen`] as values that can be compared.
pub struct ScreenModel {
    pub upstream_url: InputModel,
    pub bind_addr: InputModel,
    pub bind_port: InputModel,
    pub start: Option<Message>,
    pub stop: Option<Message>,
    pub status: Seq<char>,
    pub rows: Seq<RowModel>,
    pub detail: DetailModel,
}

impl View for Screen {
    type V = ScreenModel;

    open spec fn view(&self) -> ScreenModel {
        ScreenModel {
            upstream_url: self.upstream_url@,
            bind_addr: self.bind_addr@,
            bind_port: self.bind_port@,
            start: self.start,
            stop: self.stop,
            status: self.status@,
            rows: self.rows@.map_values(|r: EntryRow| r@),
            detail: self.detail@,
        }
    }
}

// ---------------------------------------------------------------------------------------------
// The list
// ---------------------------------------------------------------------------------------------

/// The line of a request in the list: its number, method, path and status.
pub open spec fn label_of(entry: ProxyEntry) -> Seq<char> {
    "["@ + decimal_text(entry.id as nat) + "] "@ + entry.method@ + " "@ + entry.path@ + " "@
        + decimal_text(entry.response_status as nat)
}

/// A request in the list, which is selected by its number.
pub open spec fn row_of(entry: ProxyEntry, selected: Option<usize>) -> RowModel {
    RowModel {
        label: label_of(entry),
        on_press: Message::SelectEntry(entry.id),
        selected: selected == Some(entry.id),
    }
}

/// The list: all requests in the order in which they were answered.
pub open spec fn rows_of(entries: Seq<ProxyEntry>, selected: Option<usize>) -> Seq<RowModel> {
    entries.map_values(|e: ProxyEntry| row_of(e, selected))
}

/// The line of a request in the list.
pub fn entry_label(entry: &ProxyEntry) -> (label: String)
    ensures
        label@ == label_of(*entry),
{
    let mut label = "[".to_owned();
    label.append(decimal(entry.id as u64).as_str());
    label.append("] ");
    label.append(entry.method.as_str());
    label.append(" ");
    label.append(entry.path.as_str());
    label.append(" ");
    label.append(decimal(entry.response_status as u64).as_str());
    label
}

/// The list.
pub fn entry_rows(entries: &Vec<ProxyEntry>, selected: Option<usize>) -> (rows: Vec<EntryRow>)
    ensures
        rows@.map_values(|r: EntryRow| r@) == rows_of(entries@, selected),
{
    let mut rows: Vec<EntryRow> = Vec::new();
    let mut i: usize = 0;
    while i < entries.len()
        invariant
            i <= entries@.len(),
            rows@.len() == i,
            forall|j: int| 0 <= j < i ==> (#[trigger] rows@[j])@ == row_of(entries@[j], selected),
        decreases entries.len() - i,
    {
        let entry = &entries[i];
        let is_selected = match selected {
            Some(id) => id == entry.id,
            None => false,
        };
        rows.push(
            EntryRow {
                label: entry_label(entry),
                on_press: Message::SelectEntry(entry.id),
                selected: is_selected,
            },
        );
        i += 1;
    }
    assert(rows@.map_values(|r: EntryRow| r@) =~= rows_of(entries@, selected));
    rows
}

// ---------------------------------------------------------------------------------------------
// The details
// ---------------------------------------------------------------------------------------------

/// A header as a line.
pub open spec fn header_line(header: (String, String)) -> Seq<char> {
    header.0@ + ": "@ + header.1@
}

/// Headers as lines, with a line break between two of them.
pub open spec fn header_block(headers: Seq<(String, String)>) -> Seq<char>
    decreases headers.len(),
{
    if headers.len() == 0 {
        Seq::empty()
    } else if headers.len() == 1 {
        header_line(headers[0])
    } else {
        header_block(headers.drop_last()) + "\n"@ + header_line(headers.last())
    }
}

/// The first request with that number.
pub open spec fn first_with(entries: Seq<ProxyEntry>, id: usize) -> Option<ProxyEntry>
    decreases entries.len(),
{
    if entries.len() == 0 {
        None
    } else if entries[0].id == id {
        Some(entries[0])
    } else {
        first_with(entries.skip(1), id)
    }
}

/// The details of a request.
pub open spec fn sections_of(entry: ProxyEntry) -> Seq<SectionModel> {
    seq![
        SectionModel { title: "Request Headers"@, text: header_block(entry.request_headers@) },
        SectionModel { title: "Request Body"@, text: entry.request_body@ },
        SectionModel { title: "Response Headers"@, text: header_block(entry.response_headers@) },
        SectionModel { title: "Response Body"@, text: entry.response_body@ },
    ]
}

/// The pane beside the list: the first request with the selected number, or a hint.
pub open spec fn detail_of(entries: Seq<ProxyEntry>, selected: Option<usize>) -> DetailModel {
    match selected {
        Some(id) => match first_with(entries, id) {
            Some(entry) => DetailModel::Sections(sections_of(entry)),
            None => DetailModel::Hint("Select a request to inspect"@),
        },
        None => DetailModel::Hint("Select a request to inspect"@),
    }
}

/// Headers as lines.
pub fn header_lines(headers: &Vec<(String, String)>) -> (block: String)
    ensures
        block@ == header_block(headers@),
{
    let mut block = String::new();
    let mut i: usize = 0;
    assert(headers@.take(0) =~= Seq::empty());
    while i < headers.len()
        invariant
            i <= headers@.len(),
            block@ == header_block(headers@.take(i as int)),
        decreases headers.len() - i,
    {
        assert(headers@.take(i + 1).drop_last() =~= headers@.take(i as int));
        if i > 0 {
            block.append("\n");
        }
        block.append(headers[i].0.as_str());
        block.append(": ");
        block.append(headers[i].1.as_str());
        assert(block@ =~= header_block(headers@.take(i + 1)));
        i += 1;
    }
    assert(headers@.take(headers@.len() as int) =~= headers@);
    block
}

/// A part of a request's details.
fn section(title: &str, text: String) -> (s: Section)
    ensures
        s@ == (SectionModel { title: title@, text: text@ }),
{
    Section { title: title.to_owned(), text }
}

/// The details of a request.
pub fn entry_sections(entry: &ProxyEntry) -> (sections: Vec<Section>)
    ensures
        sections@.map_values(|s: Section| s@) == sections_of(*entry),
{
    let mut sections: Vec<Section> = Vec::new();
    sections.push(section("Request Headers", header_lines(&entry.request_headers)));
    sections.push(section("Request Body", entry.request_body.clone()));
    sections.push(section("Response Headers", header_lines(&entry.response_headers)));
    sections.push(section("Response Body", entry.response_body.clone()));
    assert(sections@.map_values(|s: Section| s@) =~= sections_of(*entry));
    sections
}

/// The pane beside the list.
pub fn detail_pane(entries: &Vec<ProxyEntry>, selected: Option<usize>) -> (detail: Detail)
    ensures
        detail@ == detail_of(entries@, selected),
{
    if let Some(id) = selected {
        let mut i: usize = 0;
        assert(entries@.skip(0) =~= entries@);
        while i < entries.len()
            invariant
                i <= entries@.len(),
                selected == Some(id),
                first_with(entries@, id) == first_with(entries@.skip(i as int), id),
            decreases entries.len() - i,
        {
            assert(entries@.skip(i as int).skip(1) =~= entries@.skip(i + 1));
            if entries[i].id == id {
                return Detail::Sections(entry_sections(&entries[i]));
            }
            i += 1;
        }
    }
    Detail::Hint("Select a request to inspect".to_owned())
}

// ---------------------------------------------------------------------------------------------
// The fields
// ---------------------------------------------------------------------------------------------

/// A field to type in.
pub(crate) fn input_field(field: Field, placeholder: &str, value: &String) -> (input: InputField)
    ensures
        input@ == (InputModel { field, placeholder: placeholder@, value: value@ }),
{
    InputField { field, placeholder: placeholder.to_owned(), value: value.clone() }
}

/// What typing gives: the field's new text.
pub fn typed(field: Field, text: String) -> (message: Message)
    ensures
        message == match field {
            Field::UpstreamUrl => Message::UpstreamUrlChanged(text),
            Field::BindAddr => Message::BindAddrChanged(text),
            Field::BindPort => Message::BindPortChanged(text),
        },
{
    match field {
        Field::UpstreamUrl => Message::UpstreamUrlChanged(text),
        Field::BindAddr => Message::BindAddrChanged(text),
        Field::BindPort => Message::BindPortChanged(text),
    }
}

// ---------------------------------------------------------------------------------------------
// Laws
// ---------------------------------------------------------------------------------------------

/// What is found under a number has that number, was answered, and nothing before it has that
/// number; and nothing is found if and only if no request has that number.
pub proof fn first_with_finds(entries: Seq<ProxyEntry>, id: usize)
    ensures
        match first_with(entries, id) {
            Some(entry) => exists|k: int|
                0 <= k < entries.len() && #[trigger] entries[k] == entry && entry.id == id && (
                forall|j: int| 0 <= j < k ==> (#[trigger] entries[j]).id != id),
            None => forall|j: int| 0 <= j < entries.len() ==> (#[trigger] entries[j]).id != id,
        },
    decreases entries.len(),
{
    if entries.len() > 0 && entries[0].id != id {
        let rest = entries.skip(1);
        first_with_finds(rest, id);
        match first_with(rest, id) {
            Some(entry) => {
                let k = choose|k: int|
                    0 <= k < rest.len() && #[trigger] rest[k] == entry && entry.id == id && (
                    forall|j: int| 0 <= j < k ==> (#[trigger] rest[j]).id != id);
                assert(entries[k + 1] == entry);
                assert forall|j: int| 0 <= j < k + 1 implies (#[trigger] entries[j]).id != id by {
                    if j > 0 {
                        assert(entries[j] == rest[j - 1]);
                    }
                }
            },
            None => {
                assert forall|j: int| 0 <= j < entries.len() implies (#[trigger] entries[j]).id
                    != id by {
                    if j > 0 {
                        assert(entries[j] == rest[j - 1]);
                    }
                }
            },
        }
    } else if entries.len() > 0 {
        assert(entries[0].id == id);
    }
}

/// Details that are shown stay the same whatever is answered later.
pub proof fn details_stay(entries: Seq<ProxyEntry>, more: Seq<ProxyEntry>, id: usize)
    requires
        first_with(entries, id) is Some,
    ensures
        detail_of(entries + more, Some(id)) == detail_of(entries, Some(id)),
    decreases entries.len(),
{
    assert((entries + more)[0] == entries[0]);
    if entries[0].id != id {
        details_stay(entries.skip(1), more, id);
        assert((entries + more).skip(1) =~= entries.skip(1) + more);
    }
}

/// Requests of different numbers have different lines.
pub proof fn labels_differ(a: ProxyEntry, b: ProxyEntry)
    requires
        a.id != b.id,
    ensures
        label_of(a) != label_of(b),
{
    reveal_strlit("[");
    reveal_strlit("] ");
    if label_of(a) == label_of(b) {
        let m = decimal_text(a.id as nat);
        let n = decimal_text(b.id as nat);
        crate::text::decimal_reads_back(a.id as nat);
        crate::text::decimal_reads_back(b.id as nat);
        let la = label_of(a);
        let lb = label_of(b);
        assert(la[m.len() as int + 1] == ']');
        assert(lb[n.len() as int + 1] == ']');
        assert forall|i: int| 0 <= i < m.len() implies la[i + 1] == m[i] by {}
        assert forall|i: int| 0 <= i < n.len() implies lb[i + 1] == n[i] by {}
        if m.len() < n.len() {
            assert(lb[m.len() as int + 1] == n[m.len() as int]);
        } else if n.len() < m.len() {
            assert(la[n.len() as int + 1] == m[n.len() as int]);
        } else {
            assert forall|i: int| 0 <= i < m.len() implies m[i] == n[i] by {
                assert(la[i + 1] == m[i]);
                assert(lb[i + 1] == n[i]);
            }
            assert(m =~= n);
        }
    }
}

/// A request's line tells its number, its method, its path and its status, each whole.
pub proof fn lines_tell_their_request(
    entry: &ProxyEntry,
    label: String,
    number: String,
    status: String,
)
    requires
        call_ensures(entry_label, (entry,), label),
        call_ensures(decimal, (entry.id as u64,), number),
        call_ensures(decimal, (entry.response_status as u64,), status),
    ensures
        label@ == "["@ + number@ + "] "@ + entry.method@ + " "@ + entry.path@ + " "@ + status@,
{
}

/// The list has one row for each request, in their order: with that request's line, pressing which
/// selects its number, and marked if and only if its number is the selected one.
pub proof fn rows_stand_for_their_requests(
    entries: &Vec<ProxyEntry>,
    selected: Option<usize>,
    rows: Vec<EntryRow>,
    k: int,
    label: String,
)
    requires
        call_ensures(entry_rows, (entries, selected), rows),
        0 <= k < entries@.len(),
        call_ensures(entry_label, (&entries@[k],), label),
    ensures
        rows@.len() == entries@.len(),
        rows@[k].label@ == label@,
        rows@[k].on_press == Message::SelectEntry(entries@[k].id),
        rows@[k].selected <==> selected == Some(entries@[k].id),
{
    let shown = rows@.map_values(|r: EntryRow| r@);
    assert(shown.len() == rows@.len());
    assert(shown[k] == rows_of(entries@, selected)[k]);
}

/// An empty list has no rows.
pub proof fn no_rows_without_requests(
    entries: &Vec<ProxyEntry>,
    selected: Option<usize>,
    rows: Vec<EntryRow>,
)
    requires
        call_ensures(entry_rows, (entries, selected), rows),
        entries@.len() == 0,
    ensures
        rows@.len() == 0,
{
    assert(rows@.map_values(|r: EntryRow| r@).len() == rows@.len());
}

/// A single header is one line, of its name, a colon, a blank and its value, each whole; no headers
/// are no text.
pub proof fn a_header_is_a_line(headers: &Vec<(String, String)>, block: String)
    requires
        call_ensures(header_lines, (headers,), block),
    ensures
        headers@.len() == 0 ==> block@.len() == 0,
        headers@.len() == 1 ==> block@ == headers@[0].0@ + ": "@ + headers@[0].1@,
{
}

/// The lines of two rows of headers follow one another, with a line break between them.
pub proof fn header_lines_follow_one_another(
    first: &Vec<(String, String)>,
    second: &Vec<(String, String)>,
    both: &Vec<(String, String)>,
    a: String,
    b: String,
    c: String,
)
    requires
        call_ensures(header_lines, (first,), a),
        call_ensures(header_lines, (second,), b),
        call_ensures(header_lines, (both,), c),
        first@.len() > 0,
        second@.len() > 0,
        both@ == first@ + second@,
    ensures
        c@ == a@ + "\n"@ + b@,
{
    lemma_blocks_join(first@, second@);
}

/// Two blocks of headers are joined by a line break.
proof fn lemma_blocks_join(first: Seq<(String, String)>, second: Seq<(String, String)>)
    requires
        first.len() > 0,
        second.len() > 0,
    ensures
        header_block(first + second) == header_block(first) + "\n"@ + header_block(second),
    decreases second.len(),
{
    let both = first + second;
    assert(both.last() == second.last());
    assert(both.drop_last() =~= first + second.drop_last());
    if second.len() == 1 {
        assert(both.drop_last() =~= first);
        assert(second.last() == second[0]);
    } else {
        lemma_blocks_join(first, second.drop_last());
        assert(header_block(both) =~= header_block(first) + "\n"@ + header_block(second));
    }
}

/// The details of a request have four parts, whatever its status and however long they are: the
/// lines of the request's headers, the request's body, the lines of the answer's headers and the
/// answer's body.
pub proof fn details_have_four_parts(
    entry: &ProxyEntry,
    sections: Vec<Section>,
    asked: String,
    answered: String,
)
    requires
        call_ensures(entry_sections, (entry,), sections),
        call_ensures(header_lines, (&entry.request_headers,), asked),
        call_ensures(header_lines, (&entry.response_headers,), answered),
    ensures
        sections@.len() == 4,
        sections@[0].title@ == "Request Headers"@ && sections@[0].text@ == asked@,
        sections@[1].title@ == "Request Body"@ && sections@[1].text@ == entry.request_body@,
        sections@[2].title@ == "Response Headers"@ && sections@[2].text@ == answered@,
        sections@[3].title@ == "Response Body"@ && sections@[3].text@ == entry.response_body@,
{
    lemma_four_parts(sections@, *entry);
}

/// What it is for sections to be those of a request.
proof fn lemma_four_parts(sections: Seq<Section>, entry: ProxyEntry)
    requires
        sections.map_values(|s: Section| s@) == sections_of(entry),
    ensures
        sections.len() == 4,
        sections[0].title@ == "Request Headers"@,
        sections[0].text@ == header_block(entry.request_headers@),
        sections[1].title@ == "Request Body"@,
        sections[1].text@ == entry.request_body@,
        sections[2].title@ == "Response Headers"@,
        sections[2].text@ == header_block(entry.response_headers@),
        sections[3].title@ == "Response Body"@,
        sections[3].text@ == entry.response_body@,
{
    let shown = sections.map_values(|s: Section| s@);
    assert(shown.len() == sections.len());
    assert(shown[0] == sections[0]@);
    assert(shown[1] == sections[1]@);
    assert(shown[2] == sections[2]@);
    assert(shown[3] == sections[3]@);
}

/// The first request with the selected number is the one whose details are in the pane: whatever
/// its status, in four parts, with its own body under `Request Body` and its answer's body under
/// `Response Body`.
pub proof fn pane_shows_the_selected_request(
    entries: &Vec<ProxyEntry>,
    id: usize,
    k: int,
    detail: Detail,
    asked: String,
    answered: String,
)
    requires
        call_ensures(detail_pane, (entries, Some(id)), detail),
        0 <= k < entries@.len(),
        entries@[k].id == id,
        forall|j: int| 0 <= j < k ==> (#[trigger] entries@[j]).id != id,
        call_ensures(header_lines, (&entries@[k].request_headers,), asked),
        call_ensures(header_lines, (&entries@[k].response_headers,), answered),
    ensures
        detail matches Detail::Sections(sections) && {
            &&& sections@.len() == 4
            &&& sections@[0].title@ == "Request Headers"@ && sections@[0].text@ == asked@
            &&& sections@[1].title@ == "Request Body"@ && sections@[1].text@
                == entries@[k].request_body@
            &&& sections@[2].title@ == "Response Headers"@ && sections@[2].text@ == answered@
            &&& sections@[3].title@ == "Response Body"@ && sections@[3].text@
                == entries@[k].response_body@
        },
{
    lemma_first_with_is(entries@, id, k);
    if let Detail::Sections(sections) = detail {
        lemma_four_parts(sections@, entries@[k]);
    }
}

/// A request with that number, if none before it has it, is the first one.
proof fn lemma_first_with_is(entries: Seq<ProxyEntry>, id: usize, k: int)
    requires
        0 <= k < entries.len(),
        entries[k].id == id,
        forall|j: int| 0 <= j < k ==> (#[trigger] entries[j]).id != id,
    ensures
        first_with(entries, id) == Some(entries[k]),
{
    first_with_finds(entries, id);
}

/// The pane holds a hint alone if nothing is selected or no request has the selected number.
pub proof fn pane_shows_a_hint(
    entries: &Vec<ProxyEntry>,
    selected: Option<usize>,
    detail: Detail,
)
    requires
        call_ensures(detail_pane, (entries, selected), detail),
        selected matches Some(id) ==> forall|j: int|
            0 <= j < entries@.len() ==> (#[trigger] entries@[j]).id != id,
    ensures
        detail matches Detail::Hint(text) && text@ == "Select a request to inspect"@,
{
    if let Some(id) = selected {
        first_with_finds(entries@, id);
    }
}

/// Two requests that differ in their own bodies, or in those of their answers, have different
/// details.
pub proof fn different_bodies_are_told_apart(
    a: &ProxyEntry,
    b: &ProxyEntry,
    first: Vec<Section>,
    second: Vec<Section>,
)
    requires
        call_ensures(entry_sections, (a,), first),
        call_ensures(entry_sections, (b,), second),
    ensures
        a.response_body@ != b.response_body@ ==> first@[3].text@ != second@[3].text@,
        a.request_body@ != b.request_body@ ==> first@[1].text@ != second@[1].text@,
{
    lemma_four_parts(first@, *a);
    lemma_four_parts(second@, *b);
}

/// Two panes in which requests are found show different texts under `Response Body` if the answers'
/// bodies differ, and under `Request Body` if the requests' own do, whatever the statuses.
pub proof fn panes_tell_bodies_apart(
    a: &Vec<ProxyEntry>,
    b: &Vec<ProxyEntry>,
    i: int,
    j: int,
    first: Detail,
    second: Detail,
)
    requires
        0 <= i < a@.len(),
        0 <= j < b@.len(),
        forall|k: int| 0 <= k < i ==> (#[trigger] a@[k]).id != a@[i].id,
        forall|k: int| 0 <= k < j ==> (#[trigger] b@[k]).id != b@[j].id,
        call_ensures(detail_pane, (a, Some(a@[i].id)), first),
        call_ensures(detail_pane, (b, Some(b@[j].id)), second),
    ensures
        match (first, second) {
            (Detail::Sections(p), Detail::Sections(q)) => {
                &&& p@.len() == 4 && q@.len() == 4
                &&& a@[i].response_body@ != b@[j].response_body@ ==> p@[3].text@ != q@[3].text@
                &&& a@[i].request_body@ != b@[j].request_body@ ==> p@[1].text@ != q@[1].text@
            },
            _ => false,
        },
{
    lemma_first_with_is(a@, a@[i].id, i);
    lemma_first_with_is(b@, b@[j].id, j);
    if let (Detail::Sections(p), Detail::Sections(q)) = (first, second) {
        lemma_four_parts(p@, a@[i]);
        lemma_four_parts(q@, b@[j]);
    }
}

/// What is typed is told to the window whole, as the new text of the field that it was typed in.
pub proof fn typing_is_told_whole(field: Field, text: String, message: Message)
    requires
        call_ensures(typed, (field, text), message),
    ensures
        field is UpstreamUrl ==> (message matches Message::UpstreamUrlChanged(v) && v@ == text@),
        field is BindAddr ==> (message matches Message::BindAddrChanged(v) && v@ == text@),
        field is BindPort ==> (message matches Message::BindPortChanged(v) && v@ == text@),
{
}

} // verus!

//! The web front end: flow files in its dialect, the connection an operator's page holds, and
//! what the text that a page sends over its connection means.
use vstd::prelude::*;
use crate::flow::{Flow, EventContour, FlowCmd, CmdView};
use crate::flow_run::{CmdAction, ActionView, sensor_services};
use crate::comms::Power;
use crate::flow_parse::{read_flow, Dialect, Reading, ParseFlowKind, Parsed, spec_read_flow, text_lines};
use crate::text::{
    chars_of, find, split, starts_with, spec_parse_u64, starts_with_chars, find_char, subvec,
    split_chars, pattern1, string_from_chars, parse_u64, chars_eq_str, lemma_find_bounds,
    lemma_split_nonempty, split_space_runs, split_space_runs_chars, int_text, spec_parse_i32,
    parse_i32, i32_chars, concat_chars, decimal, decimal_chars, digit_char,
};

verus! {

/// Reads a flow from the lines of its file as the web front end reads them: the first
/// non-empty line is the flow's name, and prompt lines count their unescaped quotes (see
/// `Dialect`). A rejected file gives the line of the error (counted from the name's line) and
/// its kind. The file must not hold a line on which the reader would panic (`read_flow` tells
/// such a file apart).
pub fn parse(shortname: String, lines: &Vec<String>) -> (r: Result<Flow, (usize, ParseFlowKind)>)
    requires
        !(spec_read_flow(shortname@, text_lines(lines@), Dialect::Web) is Panics),
    ensures
        match spec_read_flow(shortname@, text_lines(lines@), Dialect::Web) {
            Parsed::Done(f) => r matches Ok(flow) && flow@ == f,
            Parsed::Fails(l, k) => r matches Err((n, kd)) && n == l && kd == k,
            Parsed::Panics => false,
        },
{
    match read_flow(shortname, lines, Dialect::Web) {
        Reading::Read(f) => Ok(f),
        Reading::Rejected(n, kind) => Err((n, kind)),
        Reading::Unreadable => Err((0, ParseFlowKind::IoError)),
    }
}

/// Reads a flow from the lines of its file as the plain web front end reads them: like `parse`,
/// but a `start` word is kept whole as the service's name, and the flow has no short name.
pub fn parse_plain(lines: &Vec<String>) -> (r: Result<Flow, (usize, ParseFlowKind)>)
    requires
        !(spec_read_flow(Seq::<char>::empty(), text_lines(lines@), Dialect::WebPlain) is Panics),
    ensures
        match spec_read_flow(Seq::<char>::empty(), text_lines(lines@), Dialect::WebPlain) {
            Parsed::Done(f) => r matches Ok(flow) && flow@ == f,
            Parsed::Fails(l, k) => r matches Err((n, kd)) && n == l && kd == k,
            Parsed::Panics => false,
        },
{
    let empty = String::new();
    assert(empty@ =~= Seq::<char>::empty());
    match read_flow(empty, lines, Dialect::WebPlain) {
        Reading::Read(f) => Ok(f),
        Reading::Rejected(n, kind) => Err((n, kind)),
        Reading::Unreadable => Err((0, ParseFlowKind::IoError)),
    }
}

/// The form that the plain web front end shows for a prompt.
pub open spec fn form(p: Seq<char>) -> Seq<char> {
    ": <form><input type=\"text\" name=\""@ + p + "\"/></form>"@
}

/// What running a command asks for on the plain web front end: a message goes to the page after
/// `msg `, a prompt asks with a form, data goes to the supervisor as it is, and a bare `stop`
/// stops every sensor service.
pub open spec fn spec_run_plain(c: CmdView) -> ActionView {
    match c {
        CmdView::Message(m) => ActionView::Show("msg "@ + m),
        CmdView::Str { prompt, .. } => ActionView::AskStr("Please enter "@ + prompt + form(prompt)),
        CmdView::Int { prompt, limits, .. } => ActionView::AskInt(
            "Please select "@ + prompt + " ("@ + int_text(limits.0 as int) + "-"@ + int_text(limits.1 as int)
                + " scale)"@ + form(prompt),
            limits.0,
            limits.1,
        ),
        CmdView::Start(s, d) => ActionView::Start(s, d),
        CmdView::Stop(s) => ActionView::Stop(s),
        CmdView::Send(s) => ActionView::SendData(s),
        CmdView::StopSensors => ActionView::StopAll(sensor_services()),
    }
}

/// The form of a prompt.
fn form_text(p: &Vec<char>) -> (r: Vec<char>)
    ensures
        r@ == form(p@),
{
    let t = concat_chars(&chars_of(": <form><input type=\"text\" name=\""), p);
    concat_chars(&t, &chars_of("\"/></form>"))
}

impl FlowCmd {
    /// What running this command asks for on the plain web front end. A prompt must not have
    /// been answered yet.
    pub fn run_plain(&self) -> (r: CmdAction)
        requires
            self@ matches CmdView::Str { data, .. } ==> data is None,
            self@ matches CmdView::Int { data, .. } ==> data is None,
        ensures
            r@ == spec_run_plain(self@),
    {
        match self {
            FlowCmd::Message(m) => {
                let t = concat_chars(&chars_of("msg "), &chars_of(m.as_str()));
                CmdAction::Show(string_from_chars(&t))
            },
            FlowCmd::Str { prompt, .. } => {
                let p = chars_of(prompt.as_str());
                let t = concat_chars(&chars_of("Please enter "), &p);
                CmdAction::AskStr(string_from_chars(&concat_chars(&t, &form_text(&p))))
            },
            FlowCmd::Int { prompt, limits, .. } => {
                let p = chars_of(prompt.as_str());
                let mut t = concat_chars(&chars_of("Please select "), &p);
                t = concat_chars(&t, &chars_of(" ("));
                t = concat_chars(&t, &i32_chars(limits.0));
                t = concat_chars(&t, &chars_of("-"));
                t = concat_chars(&t, &i32_chars(limits.1));
                t = concat_chars(&t, &chars_of(" scale)"));
                t = concat_chars(&t, &form_text(&p));
                CmdAction::AskInt(string_from_chars(&t), limits.0, limits.1)
            },
            FlowCmd::Start(s, d) => CmdAction::Start(s.clone(), match d {
                Some(x) => Some(x.clone()),
                None => None,
            }),
            FlowCmd::Stop(s) => CmdAction::Stop(s.clone()),
            FlowCmd::Send(s) => CmdAction::SendData(s.clone()),
            FlowCmd::StopSensors => {
                let mut v: Vec<String> = Vec::new();
                v.push(String::from_str("bluefox"));
                v.push(String::from_str("structure"));
                v.push(String::from_str("biotac"));
                v.push(String::from_str("optoforce"));
                v.push(String::from_str("teensy"));
                assert(v@.map_values(|x: String| x@) =~= sensor_services());
                CmdAction::StopAll(v)
            },
        }
    }
}

/// The operator's answer to a string prompt on the plain web front end.
pub open spec fn spec_validate_str_plain(x: Seq<char>) -> Result<Seq<char>, Seq<char>> {
    if x.len() == 0 {
        Err("That's an empty string!"@)
    } else {
        Ok(x)
    }
}

/// The operator's answer to an integer prompt on the plain web front end: an integer (with no
/// surrounding whitespace) within the limits.
pub open spec fn spec_validate_int_plain(x: Seq<char>, low: i32, high: i32) -> Result<i32, Seq<char>> {
    match spec_parse_i32(x) {
        Some(i) => if low <= i && i <= high {
            Ok(i)
        } else {
            Err("Out of range!"@)
        },
        None => Err("Not an integer!"@),
    }
}

/// Checks the operator's answer to a string prompt on the plain web front end.
pub fn validate_str_plain(x: String) -> (r: Result<String, String>)
    ensures
        match spec_validate_str_plain(x@) {
            Ok(v) => r matches Ok(s) && s@ == v,
            Err(m) => r matches Err(s) && s@ == m,
        },
{
    if x.as_str().is_empty() {
        Err(String::from_str("That's an empty string!"))
    } else {
        Ok(x)
    }
}

/// Checks the operator's answer to an integer prompt on the plain web front end.
pub fn validate_int_plain(x: &str, low: i32, high: i32) -> (r: Result<i32, String>)
    ensures
        match spec_validate_int_plain(x@, low, high) {
            Ok(v) => r == Ok::<i32, String>(v),
            Err(m) => r matches Err(s) && s@ == m,
        },
{
    match parse_i32(&chars_of(x)) {
        Some(i) => if low <= i && i <= high {
            Ok(i)
        } else {
            Err(String::from_str("Out of range!"))
        },
        None => Err(String::from_str("Not an integer!")),
    }
}

/// The connection of one operator's page, by its number among the connections.
#[derive(Clone)]
pub struct Comms {
    wsid: usize,
}

impl View for Comms {
    type V = usize;

    closed spec fn view(&self) -> usize {
        self.wsid
    }
}

impl Comms {
    /// The connection with the given number.
    pub fn new(wsid: usize) -> (r: Comms)
        ensures
            r@ == wsid,
    {
        Comms { wsid: wsid }
    }

    /// The number of this connection.
    pub fn wsid(&self) -> (r: usize)
        ensures
            r == self@,
    {
        self.wsid
    }
}

/// What a text from an operator's page means.
#[derive(Debug, PartialEq, Eq)]
pub enum WsText {
    /// The answer to the question that the numbered connection waits on; `None` when the
    /// operator aborted.
    Answer(usize, Option<String>),
    /// An answer meant for another server.
    Elsewhere,
    /// Data for the supervisor.
    Data(String),
}

/// Model of the meaning of a text.
pub enum WsTextView {
    Answer(usize, Option<Seq<char>>),
    Elsewhere,
    Data(Seq<char>),
}

/// The model of a text's meaning, if it has one.
pub open spec fn ws_view(r: Option<WsText>) -> Option<WsTextView> {
    match r {
        Some(WsText::Answer(w, a)) => Some(WsTextView::Answer(w, crate::flow::opt_view(a))),
        Some(WsText::Elsewhere) => Some(WsTextView::Elsewhere),
        Some(WsText::Data(d)) => Some(WsTextView::Data(d@)),
        None => None,
    }
}

/// The value of a hexadecimal digit of either case, if the character is one.
pub open spec fn hex_value(c: char) -> Option<int> {
    if '0' <= c && c <= '9' {
        Some(c as int - '0' as int)
    } else if 'a' <= c && c <= 'f' {
        Some(c as int - 'a' as int + 10)
    } else if 'A' <= c && c <= 'F' {
        Some(c as int - 'A' as int + 10)
    } else {
        None
    }
}

/// The value of a run of hexadecimal digits, most significant first, if they all are digits.
pub open spec fn hex_number(s: Seq<char>) -> Option<int>
    decreases s.len(),
{
    if s.len() == 0 {
        Some(0)
    } else {
        match (hex_number(s.drop_last()), hex_value(s.last())) {
            (Some(a), Some(d)) => Some(a * 16 + d),
            _ => None,
        }
    }
}

/// The 32 digits of a hyphenated UUID (groups of 8, 4, 4, 4 and 12 with a hyphen between), if
/// the text has that shape.
pub open spec fn unhyphenated(s: Seq<char>) -> Option<Seq<char>> {
    if s.len() == 36 && s[8] == '-' && s[13] == '-' && s[18] == '-' && s[23] == '-' {
        Some(s.subrange(0, 8) + s.subrange(9, 13) + s.subrange(14, 18) + s.subrange(19, 23) + s.subrange(24, 36))
    } else {
        None
    }
}

/// A character with ASCII capitals made small.
pub open spec fn ascii_lower(c: char) -> char {
    if 'A' <= c && c <= 'Z' {
        (c as int + 32) as char
    } else {
        c
    }
}

/// The 32 digits of a UUID written in one of the forms that `uuid::Uuid::parse_str` reads: the
/// bare digits, the hyphenated form, the hyphenated form in braces, or the hyphenated form after
/// `urn:uuid:` (in any case).
pub open spec fn uuid_digits(s: Seq<char>) -> Option<Seq<char>> {
    if s.len() == 32 {
        Some(s)
    } else if s.len() == 36 {
        unhyphenated(s)
    } else if s.len() == 38 && s[0] == '{' && s[37] == '}' {
        unhyphenated(s.subrange(1, 37))
    } else if s.len() == 45 && forall|i: int| 0 <= i < 9 ==> ascii_lower(#[trigger] s[i]) == "urn:uuid:"@[i] {
        unhyphenated(s.subrange(9, 45))
    } else {
        None
    }
}

/// The 128-bit value of the UUID that a string spells, as `uuid::Uuid::parse_str` reads it: its
/// 32 hexadecimal digits, most significant first; `None` when it spells none.
pub open spec fn uuid_value(s: Seq<char>) -> Option<u128> {
    match uuid_digits(s) {
        Some(d) => match hex_number(d) {
            Some(v) => Some(v as u128),
            None => None,
        },
        None => None,
    }
}

/// `uuid::Uuid::parse_str`, with the UUID as its 128-bit value.
#[verifier::external_body]
fn parse_uuid(s: &str) -> (r: Option<u128>)
    ensures
        r == uuid_value(s@),
{
    match uuid::Uuid::parse_str(s) {
        Ok(u) => Some(u.as_u128()),
        Err(_) => None,
    }
}

/// The integer that `s` spells, as `usize::from_str` reads it.
pub open spec fn spec_parse_usize(s: Seq<char>) -> Option<usize> {
    match spec_parse_u64(s) {
        Some(v) => if v <= usize::MAX {
            Some(v as usize)
        } else {
            None
        },
        None => None,
    }
}

/// The underscore-separated fields between `RPC` and the first space of an answer line.
pub open spec fn rpc_ids(t: Seq<char>, sp: int) -> Seq<Seq<char>> {
    split(t.subrange(3, sp), seq!['_'])
}

/// The field of an answer line that names its server (empty when the line has no space).
pub open spec fn server_field(t: Seq<char>) -> Seq<char> {
    match find(t, seq![' ']) {
        Some(sp) => rpc_ids(t, sp)[0],
        None => seq![],
    }
}

/// The meaning of an answer line `RPC<server>_<connection> <answer>`, given the server that
/// its first field names: `None` when the line is malformed (no space, no server, no
/// connection number), an answer for another server, or the answer for the connection (the
/// answer `ABORT` aborts).
pub open spec fn spec_rpc_text(t: Seq<char>, named: Option<u128>, server: u128) -> Option<WsTextView> {
    match find(t, seq![' ']) {
        None => None,
        Some(sp) => {
            let ids = rpc_ids(t, sp);
            match named {
                None => None,
                Some(srv) => if ids.len() < 2 {
                    None
                } else {
                    match spec_parse_usize(ids[1]) {
                        None => None,
                        Some(w) => if srv != server {
                            Some(WsTextView::Elsewhere)
                        } else {
                            let msg = t.subrange(sp + 1, t.len() as int);
                            Some(WsTextView::Answer(w, if msg == "ABORT"@ { None } else { Some(msg) }))
                        },
                    }
                },
            }
        },
    }
}

/// The meaning of a text from an operator's page: a line starting with `RPC` is an answer (see
/// `spec_rpc_text`), anything else is data for the supervisor.
pub open spec fn spec_ws_text(t: Seq<char>, server: u128) -> Option<WsTextView> {
    if starts_with(t, "RPC"@) {
        spec_rpc_text(t, uuid_value(server_field(t)), server)
    } else {
        Some(WsTextView::Data(t))
    }
}

/// In a line that starts with `RPC`, the first space comes after that word.
proof fn lemma_space_after_rpc(t: Seq<char>)
    requires
        starts_with(t, "RPC"@),
    ensures
        find(t, seq![' ']) matches Some(sp) ==> 3 <= sp < t.len(),
{
    reveal_strlit("RPC");
    lemma_find_bounds(t, seq![' '], 0);
    if let Some(sp) = find(t, seq![' ']) {
        assert(t.subrange(sp, sp + 1)[0] == ' ');
        if sp < 3 {
            assert(t.subrange(0, 3)[sp] == "RPC"@[sp]);
        }
    }
}

/// The meaning of an answer line, given the server that its first field names (the server
/// field is read by `uuid::Uuid::parse_str`; this takes that reading as `named`).
pub fn rpc_text(text: &str, named: Option<u128>, server: u128) -> (r: Option<WsText>)
    requires
        starts_with(text@, "RPC"@),
    ensures
        ws_view(r) == spec_rpc_text(text@, named, server),
{
    let t = chars_of(text);
    let sp = match find_char(&t, ' ') {
        None => {
            return None;
        },
        Some(sp) => sp,
    };
    proof {
        lemma_space_after_rpc(t@);
    }
    assert(3 <= sp < t.len());
    let ids = split_chars(&subvec(&t, 3, sp), &pattern1('_'));
    let ghost iv = ids@.map_values(|v: Vec<char>| v@);
    proof {
        lemma_split_nonempty(t@.subrange(3, sp as int), seq!['_']);
    }
    let srv = match named {
        None => {
            return None;
        },
        Some(srv) => srv,
    };
    if ids.len() < 2 {
        return None;
    }
    assert(iv[1] == ids@[1]@);
    let w = match parse_u64(&ids[1]) {
        None => {
            return None;
        },
        Some(v) => v,
    };
    if w > (usize::MAX as u64) {
        return None;
    }
    if srv != server {
        return Some(WsText::Elsewhere);
    }
    let msg = subvec(&t, sp + 1, t.len());
    if chars_eq_str(&msg, "ABORT") {
        Some(WsText::Answer(w as usize, None))
    } else {
        Some(WsText::Answer(w as usize, Some(string_from_chars(&msg))))
    }
}

/// The meaning of a text from an operator's page, for the server with the given identity;
/// `None` for a malformed answer line.
pub fn ws_text(text: &str, server: u128) -> (r: Option<WsText>)
    ensures
        ws_view(r) == spec_ws_text(text@, server),
{
    let t = chars_of(text);
    if !starts_with_chars(&t, &chars_of("RPC")) {
        return Some(WsText::Data(string_from_chars(&t)));
    }
    let named = match find_char(&t, ' ') {
        None => None,
        Some(sp) => {
            proof {
                lemma_space_after_rpc(t@);
                lemma_split_nonempty(t@.subrange(3, sp as int), seq!['_']);
            }
            let ids = split_chars(&subvec(&t, 3, sp), &pattern1('_'));
            assert(ids@.map_values(|v: Vec<char>| v@)[0] == ids@[0]@);
            let field = string_from_chars(&ids[0]);
            parse_uuid(field.as_str())
        },
    };
    rpc_text(text, named, server)
}

/// The lowercase hexadecimal digit of a value below 16.
pub open spec fn hex_digit(d: int) -> char {
    if d < 10 {
        digit_char(d)
    } else {
        (d - 10 + 'a' as int) as char
    }
}

/// The last `n` hexadecimal digits of `v`, most significant first.
pub open spec fn hex_text(v: int, n: nat) -> Seq<char>
    decreases n,
{
    if n == 0 {
        seq![]
    } else {
        hex_text(v / 16, (n - 1) as nat).push(hex_digit(v % 16))
    }
}

/// The hyphenated lowercase text of a UUID: its 32 hexadecimal digits, most significant first,
/// in groups of 8, 4, 4, 4 and 12.
pub open spec fn uuid_text(v: u128) -> Seq<char> {
    let h = hex_text(v as int, 32);
    h.subrange(0, 8) + "-"@ + h.subrange(8, 12) + "-"@ + h.subrange(12, 16) + "-"@ + h.subrange(16, 20) + "-"@
        + h.subrange(20, 32)
}

/// `uuid::Uuid::from_u128` and the UUID's `Display`, which writes it hyphenated in lowercase.
#[verifier::external_body]
fn uuid_string(v: u128) -> (r: String)
    ensures
        r@ == uuid_text(v),
{
    uuid::Uuid::from_u128(v).to_string()
}

/// The greeting that a new connection gets: the server's identity and the connection's number,
/// which the page puts in front of its answers.
pub open spec fn hello(server: u128, wsid: usize) -> Seq<char> {
    "hello "@ + uuid_text(server) + "_"@ + decimal(wsid as nat)
}

/// The protocol that the server speaks with operators' pages.
pub open spec fn page_protocol() -> Seq<char> {
    "rust-websocket"@
}

/// The protocol by which a connection asks the listener to shut down.
pub open spec fn shutdown_protocol() -> Seq<char> {
    "ouroboros"@
}

/// What the listener does with a new connection.
#[derive(Debug, PartialEq, Eq)]
pub enum Connect {
    /// Stop listening: the connection asked for a shutdown.
    Shutdown,
    /// Accept the page with the protocol, as the numbered connection, and greet it.
    Accept { wsid: usize, protocol: String, hello: String },
    /// Turn the page away: it offers no protocol that the server speaks.
    Unsuitable,
    /// Turn the page away: it offers no protocols.
    NoProtocols,
}

/// The names in a list of strings.
pub open spec fn names(ps: Seq<String>) -> Seq<Seq<char>> {
    ps.map_values(|p: String| p@)
}

/// Whether the list holds the name.
fn offers(ps: &Vec<String>, name: &str) -> (r: bool)
    ensures
        r == names(ps@).contains(name@),
{
    let mut i: usize = 0;
    while i < ps.len()
        invariant
            i <= ps.len(),
            forall|k: int| 0 <= k < i ==> ps@[k]@ != name@,
        decreases ps.len() - i,
    {
        if chars_eq_str(&chars_of(ps[i].as_str()), name) {
            assert(names(ps@)[i as int] == name@);
            return true;
        }
        i = i + 1;
    }
    assert forall|k: int| 0 <= k < names(ps@).len() implies names(ps@)[k] != name@ by {
        assert(names(ps@)[k] == ps@[k]@);
    }
    false
}

/// The greeting of the numbered connection.
fn hello_text(server: u128, wsid: usize) -> (r: String)
    ensures
        r@ == hello(server, wsid),
{
    let t = concat_chars(&chars_of("hello "), &chars_of(uuid_string(server).as_str()));
    let t = concat_chars(&t, &chars_of("_"));
    let t = concat_chars(&t, &decimal_chars(wsid as u64));
    string_from_chars(&t)
}

/// What the listener of the server `server`, with `registered` connections so far, does with a
/// new connection that offers the protocols (`None` when it names none): a shutdown request
/// stops it; a page that speaks the server's protocol becomes the next connection and is
/// greeted; any other is turned away.
pub fn connection(protocols: Option<Vec<String>>, registered: usize, server: u128) -> (r: Connect)
    ensures
        match protocols {
            None => r == Connect::NoProtocols,
            Some(ps) => if names(ps@).contains(shutdown_protocol()) {
                r == Connect::Shutdown
            } else if names(ps@).contains(page_protocol()) {
                r matches Connect::Accept { wsid, protocol, hello: h } && wsid == registered && protocol@
                    == page_protocol() && h@ == hello(server, registered)
            } else {
                r == Connect::Unsuitable
            },
        },
{
    match protocols {
        None => Connect::NoProtocols,
        Some(ps) => if offers(&ps, "ouroboros") {
            Connect::Shutdown
        } else if offers(&ps, "rust-websocket") {
            Connect::Accept {
                wsid: registered,
                protocol: String::from_str("rust-websocket"),
                hello: hello_text(server, registered),
            }
        } else {
            Connect::Unsuitable
        },
    }
}

/// What the server does with a text from an operator's page.
#[derive(Debug, PartialEq, Eq)]
pub enum RpcAction {
    /// Hand the answer (`None`: aborted) to the question that the numbered connection waits on.
    Deliver(usize, Option<String>),
    /// Tell the numbered connection that no question waits on its answer.
    Refuse(usize, String),
    /// Pass the data on to the supervisor.
    Forward(String),
    /// Nothing: the answer was meant for another server.
    Ignore,
}

/// What the server does with a text's meaning, given whether a question waits on the answering
/// connection: an answer goes to the waiting question, or back with an error when none waits;
/// data goes to the supervisor.
pub fn rpc_dispatch(t: WsText, waiting: bool) -> (r: RpcAction)
    ensures
        match t {
            WsText::Answer(w, a) => if waiting {
                r == RpcAction::Deliver(w, a)
            } else {
                r matches RpcAction::Refuse(v, m) && v == w && m@ == "RPC ERROR: nobody listening"@
            },
            WsText::Elsewhere => r == RpcAction::Ignore,
            WsText::Data(d) => r == RpcAction::Forward(d),
        },
{
    match t {
        WsText::Answer(w, a) => if waiting {
            RpcAction::Deliver(w, a)
        } else {
            RpcAction::Refuse(w, String::from_str("RPC ERROR: nobody listening"))
        },
        WsText::Elsewhere => RpcAction::Ignore,
        WsText::Data(d) => RpcAction::Forward(d),
    }
}

/// `a` followed by `b`.
fn cat(a: &str, b: &str) -> (r: String)
    ensures
        r@ == a@ + b@,
{
    let mut s = String::from_str(a);
    s.append(b);
    s
}

/// The reply to a request that names an unknown action.
pub open spec fn what_does(a: Seq<char>) -> Seq<char> {
    "What does "@ + a + " mean?"@
}

/// The reply to a request that names an unknown action.
fn what_does_text(a: &str) -> (r: String)
    ensures
        r@ == what_does(a@),
{
    let mut s = cat("What does ", a);
    s.append(" mean?");
    s
}

/// What a request to the machine itself asks for, with the reply: `poweroff`, `reboot` and
/// `wifi` (restart the wireless network); anything else is refused.
pub open spec fn spec_nuc(a: Seq<char>) -> Result<(Power, Seq<char>), Seq<char>> {
    if a == "poweroff"@ {
        Ok((Power::PowerOff, "Powering off..."@))
    } else if a == "reboot"@ {
        Ok((Power::Reboot, "Rebooting..."@))
    } else if a == "wifi"@ {
        Ok((Power::RebootWifi, "Rebooting..."@))
    } else {
        Err(what_does(a))
    }
}

/// What a request to the machine itself asks for, with the reply; a refusal's reply otherwise.
pub fn nuc_request(action: &str) -> (r: Result<(Power, String), String>)
    ensures
        match spec_nuc(action@) {
            Ok((p, m)) => r matches Ok((q, t)) && q == p && t@ == m,
            Err(m) => r matches Err(t) && t@ == m,
        },
{
    let a = chars_of(action);
    if chars_eq_str(&a, "poweroff") {
        Ok((Power::PowerOff, String::from_str("Powering off...")))
    } else if chars_eq_str(&a, "reboot") {
        Ok((Power::Reboot, String::from_str("Rebooting...")))
    } else if chars_eq_str(&a, "wifi") {
        Ok((Power::RebootWifi, String::from_str("Rebooting...")))
    } else {
        Err(what_does_text(action))
    }
}

/// What a request about a service asks for.
#[derive(Copy, Clone, Debug, PartialEq, Eq, Structural)]
pub enum Control {
    Start,
    Stop,
    Kick,
}

/// What a request about a service asks for: `start`, `stop` or `kick`; anything else is refused.
pub open spec fn spec_control(a: Seq<char>) -> Result<Control, Seq<char>> {
    if a == "start"@ {
        Ok(Control::Start)
    } else if a == "stop"@ {
        Ok(Control::Stop)
    } else if a == "kick"@ {
        Ok(Control::Kick)
    } else {
        Err(what_does(a))
    }
}

/// What a request about a service asks for, or the refusal's reply.
pub fn control_request(action: &str) -> (r: Result<Control, String>)
    ensures
        match spec_control(action@) {
            Ok(c) => r == Ok::<Control, String>(c),
            Err(m) => r matches Err(t) && t@ == m,
        },
{
    let a = chars_of(action);
    if chars_eq_str(&a, "start") {
        Ok(Control::Start)
    } else if chars_eq_str(&a, "stop") {
        Ok(Control::Stop)
    } else if chars_eq_str(&a, "kick") {
        Ok(Control::Kick)
    } else {
        Err(what_does_text(action))
    }
}

/// The reply to a request about `service` that did (`ok`) or did not succeed.
pub open spec fn spec_control_reply(c: Control, service: Seq<char>, ok: bool) -> Seq<char> {
    match (c, ok) {
        (Control::Start, true) => "Started "@ + service,
        (Control::Start, false) => "Failed to start "@ + service,
        (Control::Stop, true) => "Stopped "@ + service,
        (Control::Stop, false) => "Failed to stop "@ + service,
        (Control::Kick, true) => "Kicked "@ + service,
        (Control::Kick, false) => "Failed to kick "@ + service,
    }
}

/// The reply to a request about `service` that did (`ok`) or did not succeed.
pub fn control_reply(c: Control, service: &str, ok: bool) -> (r: String)
    ensures
        r@ == spec_control_reply(c, service@, ok),
{
    match (c, ok) {
        (Control::Start, true) => cat("Started ", service),
        (Control::Start, false) => cat("Failed to start ", service),
        (Control::Stop, true) => cat("Stopped ", service),
        (Control::Stop, false) => cat("Failed to stop ", service),
        (Control::Kick, true) => cat("Kicked ", service),
        (Control::Kick, false) => cat("Failed to kick ", service),
    }
}

/// The data that kicks a service.
pub fn kick_data(service: &str) -> (r: String)
    ensures
        r@ == "kick "@ + service@,
{
    cat("kick ", service)
}

/// What a request about a flow asks for.
#[derive(Copy, Clone, Debug, PartialEq, Eq, Structural)]
pub enum FlowAction {
    Start,
    Continue,
    Abort,
}

/// What a request about a flow asks for: `start`, `continue` or `abort`; anything else is
/// refused.
pub open spec fn spec_flow_action(a: Seq<char>) -> Result<FlowAction, Seq<char>> {
    if a == "start"@ {
        Ok(FlowAction::Start)
    } else if a == "continue"@ {
        Ok(FlowAction::Continue)
    } else if a == "abort"@ {
        Ok(FlowAction::Abort)
    } else {
        Err(what_does(a))
    }
}

/// What a request about a flow asks for, or the refusal's reply.
pub fn flow_action(action: &str) -> (r: Result<FlowAction, String>)
    ensures
        match spec_flow_action(action@) {
            Ok(f) => r == Ok::<FlowAction, String>(f),
            Err(m) => r matches Err(t) && t@ == m,
        },
{
    let a = chars_of(action);
    if chars_eq_str(&a, "start") {
        Ok(FlowAction::Start)
    } else if chars_eq_str(&a, "continue") {
        Ok(FlowAction::Continue)
    } else if chars_eq_str(&a, "abort") {
        Ok(FlowAction::Abort)
    } else {
        Err(what_does_text(action))
    }
}

/// The outcome of a request about a flow.
#[derive(Copy, Clone, Debug, PartialEq, Eq, Structural)]
pub enum FlowOutcome {
    /// The flow is being aborted.
    Aborting,
    /// A step of the flow ran, with this outcome.
    Ran(EventContour),
    /// No flow has the name.
    Missing,
    /// The step of the flow failed.
    Failed,
}

/// The name of a step's outcome.
pub open spec fn contour_name(c: EventContour) -> Seq<char> {
    match c {
        EventContour::Starting => "Starting"@,
        EventContour::Continuing => "Continuing"@,
        EventContour::Finishing => "Finishing"@,
        EventContour::In => "In"@,
    }
}

/// The reply to a request about the flow `flow`.
pub open spec fn spec_flow_reply(o: FlowOutcome, flow: Seq<char>) -> Seq<char> {
    match o {
        FlowOutcome::Aborting => "Aborting \""@ + flow + "\" flow"@,
        FlowOutcome::Ran(c) => contour_name(c) + " \""@ + flow + "\" flow"@,
        FlowOutcome::Missing => "Could not find \""@ + flow + "\" flow"@,
        FlowOutcome::Failed => "bad"@,
    }
}

/// The HTTP status of the reply to a request about a flow: 200 when it was aborted or ran, 400
/// when no flow has the name, 500 when its step failed.
pub open spec fn spec_flow_status(o: FlowOutcome) -> u16 {
    match o {
        FlowOutcome::Aborting => 200,
        FlowOutcome::Ran(_) => 200,
        FlowOutcome::Missing => 400,
        FlowOutcome::Failed => 500,
    }
}

/// The HTTP status of the reply to a request about a flow.
pub fn flow_status(o: FlowOutcome) -> (r: u16)
    ensures
        r == spec_flow_status(o),
{
    match o {
        FlowOutcome::Aborting => 200,
        FlowOutcome::Ran(_) => 200,
        FlowOutcome::Missing => 400,
        FlowOutcome::Failed => 500,
    }
}

/// The HTTP status of the reply to a request about a service: 200 when it succeeded, 500 when
/// it did not.
pub fn control_status(ok: bool) -> (r: u16)
    ensures
        ok ==> r == 200,
        !ok ==> r == 500,
{
    if ok { 200 } else { 500 }
}

/// The HTTP status of the reply to a request that names an unknown action (`what_does`).
pub fn unknown_action_status() -> (r: u16)
    ensures
        r == 400,
{
    400
}

/// The reply (status and text) to a request about a flow from a page that another server
/// loaded: it must be reloaded first.
pub fn stale_reply() -> (r: (u16, String))
    ensures
        r.0 == 418,
        r.1@ == "Reload first!"@,
{
    (418, String::from_str("Reload first!"))
}

/// The reply to a request about the flow `flow`.
pub fn flow_reply(o: FlowOutcome, flow: &str) -> (r: String)
    ensures
        r@ == spec_flow_reply(o, flow@),
{
    let mut s = match o {
        FlowOutcome::Aborting => cat("Aborting \"", flow),
        FlowOutcome::Ran(c) => {
            let name = match c {
                EventContour::Starting => "Starting",
                EventContour::Continuing => "Continuing",
                EventContour::Finishing => "Finishing",
                EventContour::In => "In",
            };
            let mut t = cat(name, " \"");
            t.append(flow);
            t
        },
        FlowOutcome::Missing => cat("Could not find \"", flow),
        FlowOutcome::Failed => {
            return String::from_str("bad");
        },
    };
    s.append("\" flow");
    s
}

/// Which page a request about a flow comes from.
#[derive(Copy, Clone, Debug, PartialEq, Eq, Structural)]
pub enum Client {
    /// The page of the numbered connection to this server.
    Mine(usize),
    /// A page loaded from another server (it must be reloaded).
    Stale,
}

/// The page that a connection field `<server>_<connection>` names, given the server that its
/// first part names: `None` when the field is malformed.
pub open spec fn spec_client(field: Seq<char>, named: Option<u128>, server: u128) -> Option<Client> {
    let ids = split(field, seq!['_']);
    match named {
        None => None,
        Some(srv) => if ids.len() < 2 {
            None
        } else {
            match spec_parse_usize(ids[1]) {
                None => None,
                Some(w) => Some(if srv == server { Client::Mine(w) } else { Client::Stale }),
            }
        },
    }
}

/// The page that a connection field names, given the server that its first part names (read
/// by `uuid::Uuid::parse_str`; this takes that reading as `named`).
pub fn client_with(field: &str, named: Option<u128>, server: u128) -> (r: Option<Client>)
    ensures
        r == spec_client(field@, named, server),
{
    let f = chars_of(field);
    let ids = split_chars(&f, &pattern1('_'));
    let ghost iv = ids@.map_values(|v: Vec<char>| v@);
    let srv = match named {
        None => {
            return None;
        },
        Some(srv) => srv,
    };
    if ids.len() < 2 {
        return None;
    }
    assert(iv[1] == ids@[1]@);
    let w = match parse_u64(&ids[1]) {
        None => {
            return None;
        },
        Some(v) => v,
    };
    if w > (usize::MAX as u64) {
        return None;
    }
    Some(if srv == server { Client::Mine(w as usize) } else { Client::Stale })
}

/// The page that a connection field `<server>_<connection>` names, for the server with the
/// given identity; `None` when the field is malformed.
pub fn client(field: &str, server: u128) -> (r: Option<Client>)
    ensures
        r == spec_client(field@, uuid_value(split(field@, seq!['_'])[0]), server),
{
    let f = chars_of(field);
    let ids = split_chars(&f, &pattern1('_'));
    proof {
        lemma_split_nonempty(f@, seq!['_']);
    }
    assert(ids@.map_values(|v: Vec<char>| v@)[0] == ids@[0]@);
    let first = string_from_chars(&ids[0]);
    let named = parse_uuid(first.as_str());
    client_with(field, named, server)
}

/// The space left on the disk, as `df -h` reports it: the fourth column (columns are separated
/// by runs of spaces) of the second line; `None` when the output has no such column.
pub open spec fn spec_df_available(out: Seq<char>) -> Option<Seq<char>> {
    let lines = split(out, seq!['\n']);
    if lines.len() < 2 {
        None
    } else {
        let cols = split_space_runs(lines[1]);
        if cols.len() < 4 {
            None
        } else {
            Some(cols[3])
        }
    }
}

/// The space left on the disk, read from the output of `df -h`.
pub fn df_available(out: &str) -> (r: Option<String>)
    ensures
        match spec_df_available(out@) {
            Some(a) => r matches Some(s) && s@ == a,
            None => r is None,
        },
{
    let o = chars_of(out);
    let lines = split_chars(&o, &pattern1('\n'));
    if lines.len() < 2 {
        return None;
    }
    assert(lines@.map_values(|v: Vec<char>| v@)[1] == lines@[1]@);
    let cols = split_space_runs_chars(&lines[1]);
    if cols.len() < 4 {
        return None;
    }
    assert(cols@.map_values(|v: Vec<char>| v@)[3] == cols@[3]@);
    Some(string_from_chars(&cols[3]))
}

/// On the plain web front end, the answer to an integer prompt is accepted exactly when it is an
/// integer within the limits, both included: the decimal text of every integer from `low` to
/// `high` gives that integer, and an accepted answer lies within the limits and is what the
/// text spells.
pub proof fn law_validate_int_plain_limits(i: i32, low: i32, high: i32, x: Seq<char>)
    ensures
        low <= i <= high ==> spec_validate_int_plain(int_text(i as int), low, high) == Ok::<i32, Seq<char>>(i),
        !(low <= i <= high) ==> spec_validate_int_plain(int_text(i as int), low, high) is Err,
        spec_validate_int_plain(x, low, high) matches Ok(v) ==> low <= v <= high && spec_parse_i32(x) == Some(v),
{
    crate::text::lemma_int_text_parses(i);
}

} // verus!

//! The daemon's line-oriented request grammar and its reply rendering.
use vstd::prelude::*;
use vstd::string::*;
use crate::words::{
    decimal_u64, join_spans, join_words, opt_chars, parse_decimal, span_string, span_words,
    spans_in, split_words, words,
};

verus! {

/// Arguments of a `stage` request; at most one selector is set.
#[derive(Debug)]
pub struct StageArgs {
    pub window_id: Option<u64>,
    pub all: bool,
    pub list: bool,
    pub active: bool,
    pub appid: Option<String>,
    pub title: Option<String>,
}

/// Arguments of an `unstage` request; at most one selector is set.
#[derive(Debug)]
pub struct UnstageArgs {
    pub window_id: Option<u64>,
    pub all: bool,
    pub active: bool,
    pub appid: Option<String>,
    pub title: Option<String>,
}

/// A parsed request.
#[derive(Debug)]
pub enum Request {
    Add { window_id: u64 },
    Remove { window_id: u64 },
    List,
    ToggleActive,
    ToggleAppid { appid: String },
    ToggleTitle { title: String },
    Stage(StageArgs),
    Unstage(UnstageArgs),
}

/// A reply to a request: a success message, an error message or a data payload.
#[derive(Debug)]
pub enum Response {
    Success(String),
    Error(String),
    Data(String),
}

/// Why a request line was refused.
#[derive(Debug, Clone, Copy, PartialEq, Eq, Structural)]
pub enum ParseError {
    MissingWindowId,
    InvalidWindowId,
    MissingAppid,
    MissingTitle,
    MissingToggleAppid,
    MissingToggleTitle,
    MissingStageAppid,
    MissingStageTitle,
    MissingStageArgument,
    MissingUnstageAppid,
    MissingUnstageTitle,
    MissingUnstageArgument,
    UnknownCommand,
}

impl ParseError {
    /// The one-line description of the error.
    pub fn message(&self) -> (r: String)
        ensures
            r@ == parse_error_text(*self),
    {
        let text = match self {
            ParseError::MissingWindowId => "Missing window id",
            ParseError::InvalidWindowId => "Invalid window id",
            ParseError::MissingAppid => "Missing appid",
            ParseError::MissingTitle => "Missing title",
            ParseError::MissingToggleAppid => "Missing appid for toggle",
            ParseError::MissingToggleTitle => "Missing title for toggle",
            ParseError::MissingStageAppid => "Missing appid for stage",
            ParseError::MissingStageTitle => "Missing title for stage",
            ParseError::MissingStageArgument => "Missing argument for stage",
            ParseError::MissingUnstageAppid => "Missing appid for unstage",
            ParseError::MissingUnstageTitle => "Missing title for unstage",
            ParseError::MissingUnstageArgument => "Missing argument for unstage",
            ParseError::UnknownCommand => "Unknown command",
        };
        text.to_owned()
    }
}

pub open spec fn parse_error_text(e: ParseError) -> Seq<char> {
    match e {
        ParseError::MissingWindowId => "Missing window id"@,
        ParseError::InvalidWindowId => "Invalid window id"@,
        ParseError::MissingAppid => "Missing appid"@,
        ParseError::MissingTitle => "Missing title"@,
        ParseError::MissingToggleAppid => "Missing appid for toggle"@,
        ParseError::MissingToggleTitle => "Missing title for toggle"@,
        ParseError::MissingStageAppid => "Missing appid for stage"@,
        ParseError::MissingStageTitle => "Missing title for stage"@,
        ParseError::MissingStageArgument => "Missing argument for stage"@,
        ParseError::MissingUnstageAppid => "Missing appid for unstage"@,
        ParseError::MissingUnstageTitle => "Missing title for unstage"@,
        ParseError::MissingUnstageArgument => "Missing argument for unstage"@,
        ParseError::UnknownCommand => "Unknown command"@,
    }
}

pub struct StageArgsView {
    pub window_id: Option<u64>,
    pub all: bool,
    pub list: bool,
    pub active: bool,
    pub appid: Option<Seq<char>>,
    pub title: Option<Seq<char>>,
}

pub struct UnstageArgsView {
    pub window_id: Option<u64>,
    pub all: bool,
    pub active: bool,
    pub appid: Option<Seq<char>>,
    pub title: Option<Seq<char>>,
}

pub enum RequestView {
    Add { window_id: u64 },
    Remove { window_id: u64 },
    List,
    ToggleActive,
    ToggleAppid { appid: Seq<char> },
    ToggleTitle { title: Seq<char> },
    Stage(StageArgsView),
    Unstage(UnstageArgsView),
}

impl View for StageArgs {
    type V = StageArgsView;

    open spec fn view(&self) -> StageArgsView {
        StageArgsView {
            window_id: self.window_id,
            all: self.all,
            list: self.list,
            active: self.active,
            appid: opt_chars(self.appid),
            title: opt_chars(self.title),
        }
    }
}

impl View for UnstageArgs {
    type V = UnstageArgsView;

    open spec fn view(&self) -> UnstageArgsView {
        UnstageArgsView {
            window_id: self.window_id,
            all: self.all,
            active: self.active,
            appid: opt_chars(self.appid),
            title: opt_chars(self.title),
        }
    }
}

impl View for Request {
    type V = RequestView;

    open spec fn view(&self) -> RequestView {
        match self {
            Request::Add { window_id } => RequestView::Add { window_id: *window_id },
            Request::Remove { window_id } => RequestView::Remove { window_id: *window_id },
            Request::List => RequestView::List,
            Request::ToggleActive => RequestView::ToggleActive,
            Request::ToggleAppid { appid } => RequestView::ToggleAppid { appid: appid@ },
            Request::ToggleTitle { title } => RequestView::ToggleTitle { title: title@ },
            Request::Stage(a) => RequestView::Stage(a@),
            Request::Unstage(a) => RequestView::Unstage(a@),
        }
    }
}

impl Default for StageArgs {
    fn default() -> (r: StageArgs)
        ensures
            r@ == stage_view(None, false, false, false, None, None),
    {
        StageArgs {
            window_id: None,
            all: false,
            list: false,
            active: false,
            appid: None,
            title: None,
        }
    }
}

impl Default for UnstageArgs {
    fn default() -> (r: UnstageArgs)
        ensures
            r@ == unstage_view(None, false, false, None, None),
    {
        UnstageArgs { window_id: None, all: false, active: false, appid: None, title: None }
    }
}

pub open spec fn stage_view(
    window_id: Option<u64>,
    all: bool,
    list: bool,
    active: bool,
    appid: Option<Seq<char>>,
    title: Option<Seq<char>>,
) -> StageArgsView {
    StageArgsView { window_id, all, list, active, appid, title }
}

pub open spec fn unstage_view(
    window_id: Option<u64>,
    all: bool,
    active: bool,
    appid: Option<Seq<char>>,
    title: Option<Seq<char>>,
) -> UnstageArgsView {
    UnstageArgsView { window_id, all, active, appid, title }
}

/// The request that the words `ws` of a line denote: the first word names the
/// command, the following words its arguments; a title is every word after the
/// selector, joined with single spaces.
pub open spec fn parse_words(ws: Seq<Seq<char>>) -> Result<RequestView, ParseError> {
    if ws.len() == 0 {
        Err(ParseError::UnknownCommand)
    } else if ws[0] == "add"@ || ws[0] == "remove"@ {
        if ws.len() < 2 {
            Err(ParseError::MissingWindowId)
        } else {
            match decimal_u64(ws[1]) {
                Some(id) => if ws[0] == "add"@ {
                    Ok(RequestView::Add { window_id: id })
                } else {
                    Ok(RequestView::Remove { window_id: id })
                },
                None => Err(ParseError::InvalidWindowId),
            }
        }
    } else if ws[0] == "list"@ {
        Ok(RequestView::List)
    } else if ws[0] == "toggle_active"@ {
        Ok(RequestView::ToggleActive)
    } else if ws[0] == "toggle_appid"@ {
        if ws.len() < 2 {
            Err(ParseError::MissingAppid)
        } else {
            Ok(RequestView::ToggleAppid { appid: ws[1] })
        }
    } else if ws[0] == "toggle_title"@ {
        if ws.len() < 2 {
            Err(ParseError::MissingTitle)
        } else {
            Ok(RequestView::ToggleTitle { title: join_words(ws.skip(1)) })
        }
    } else if ws[0] == "stage"@ {
        parse_stage(ws)
    } else if ws[0] == "unstage"@ {
        parse_unstage(ws)
    } else {
        Err(ParseError::UnknownCommand)
    }
}

/// The arguments of `stage`, given the words of the whole line.
pub open spec fn parse_stage(ws: Seq<Seq<char>>) -> Result<RequestView, ParseError> {
    if ws.len() < 2 {
        Err(ParseError::MissingStageArgument)
    } else if ws[1] == "--toggle-appid"@ {
        if ws.len() < 3 {
            Err(ParseError::MissingToggleAppid)
        } else {
            Ok(RequestView::Stage(stage_view(None, false, false, false, Some(ws[2]), None)))
        }
    } else if ws[1] == "--toggle-title"@ {
        if ws.len() < 3 {
            Err(ParseError::MissingToggleTitle)
        } else {
            Ok(
                RequestView::Stage(
                    stage_view(None, false, false, false, None, Some(join_words(ws.skip(2)))),
                ),
            )
        }
    } else if ws[1] == "--all"@ {
        Ok(RequestView::Stage(stage_view(None, true, false, false, None, None)))
    } else if ws[1] == "--list"@ {
        Ok(RequestView::Stage(stage_view(None, false, true, false, None, None)))
    } else if ws[1] == "--active"@ {
        Ok(RequestView::Stage(stage_view(None, false, false, true, None, None)))
    } else if ws[1] == "--appid"@ {
        if ws.len() < 3 {
            Err(ParseError::MissingStageAppid)
        } else {
            Ok(RequestView::Stage(stage_view(None, false, false, false, Some(ws[2]), None)))
        }
    } else if ws[1] == "--title"@ {
        if ws.len() < 3 {
            Err(ParseError::MissingStageTitle)
        } else {
            Ok(
                RequestView::Stage(
                    stage_view(None, false, false, false, None, Some(join_words(ws.skip(2)))),
                ),
            )
        }
    } else {
        match decimal_u64(ws[1]) {
            Some(id) => Ok(RequestView::Stage(stage_view(Some(id), false, false, false, None, None))),
            None => Err(ParseError::InvalidWindowId),
        }
    }
}

/// The arguments of `unstage`, given the words of the whole line.
pub open spec fn parse_unstage(ws: Seq<Seq<char>>) -> Result<RequestView, ParseError> {
    if ws.len() < 2 {
        Err(ParseError::MissingUnstageArgument)
    } else if ws[1] == "--toggle-appid"@ {
        if ws.len() < 3 {
            Err(ParseError::MissingToggleAppid)
        } else {
            Ok(RequestView::ToggleAppid { appid: ws[2] })
        }
    } else if ws[1] == "--toggle-title"@ {
        if ws.len() < 3 {
            Err(ParseError::MissingToggleTitle)
        } else {
            Ok(RequestView::ToggleTitle { title: join_words(ws.skip(2)) })
        }
    } else if ws[1] == "--all"@ {
        Ok(RequestView::Unstage(unstage_view(None, true, false, None, None)))
    } else if ws[1] == "--active"@ {
        Ok(RequestView::Unstage(unstage_view(None, false, true, None, None)))
    } else if ws[1] == "--appid"@ {
        if ws.len() < 3 {
            Err(ParseError::MissingUnstageAppid)
        } else {
            Ok(RequestView::Unstage(unstage_view(None, false, false, Some(ws[2]), None)))
        }
    } else if ws[1] == "--title"@ {
        if ws.len() < 3 {
            Err(ParseError::MissingUnstageTitle)
        } else {
            Ok(
                RequestView::Unstage(
                    unstage_view(None, false, false, None, Some(join_words(ws.skip(2)))),
                ),
            )
        }
    } else {
        match decimal_u64(ws[1]) {
            Some(id) => Ok(RequestView::Unstage(unstage_view(Some(id), false, false, None, None))),
            None => Err(ParseError::InvalidWindowId),
        }
    }
}

pub open spec fn result_view(r: Result<Request, ParseError>) -> Result<RequestView, ParseError> {
    match r {
        Ok(q) => Ok(q@),
        Err(e) => Err(e),
    }
}

/// Whether word `k` of `line` exists and reads `lit`.
fn word_is(line: &str, spans: &Vec<(usize, usize)>, k: usize, lit: &str) -> (r: bool)
    requires
        spans_in(line@, spans@),
    ensures
        r == (k < spans.len() && span_words(line@, spans@)[k as int] == lit@),
{
    if k >= spans.len() {
        return false;
    }
    let (a, b) = spans[k];
    let ghost w = line@.subrange(a as int, b as int);
    let n = lit.unicode_len();
    if b - a != n {
        return false;
    }
    let mut i: usize = 0;
    while i < n
        invariant
            a <= b <= line@.len(),
            n == lit@.len(),
            b - a == n,
            w == line@.subrange(a as int, b as int),
            k < spans.len(),
            span_words(line@, spans@)[k as int] == w,
            i <= n,
            forall|j: int| 0 <= j < i ==> w[j] == lit@[j],
        decreases n - i,
    {
        if line.get_char(a + i) != lit.get_char(i) {
            proof {
                assert(w[i as int] != lit@[i as int]);
            }
            return false;
        }
        i = i + 1;
    }
    proof {
        assert(w =~= lit@);
    }
    true
}

/// The window id written as word `k` of `line`.
fn id_word(line: &str, spans: &Vec<(usize, usize)>, k: usize) -> (r: Option<u64>)
    requires
        spans_in(line@, spans@),
        k < spans.len(),
    ensures
        r == decimal_u64(span_words(line@, spans@)[k as int]),
{
    let (a, b) = spans[k];
    parse_decimal(line, a, b)
}

/// Word `k` of `line` as a new string.
fn word_string(line: &str, spans: &Vec<(usize, usize)>, k: usize) -> (r: String)
    requires
        spans_in(line@, spans@),
        k < spans.len(),
    ensures
        r@ == span_words(line@, spans@)[k as int],
{
    let (a, b) = spans[k];
    span_string(line, a, b)
}

fn stage_args(
    window_id: Option<u64>,
    all: bool,
    list: bool,
    active: bool,
    appid: Option<String>,
    title: Option<String>,
) -> (r: StageArgs)
    ensures
        r@ == stage_view(window_id, all, list, active, opt_chars(appid), opt_chars(title)),
{
    StageArgs { window_id, all, list, active, appid, title }
}

fn unstage_args(
    window_id: Option<u64>,
    all: bool,
    active: bool,
    appid: Option<String>,
    title: Option<String>,
) -> (r: UnstageArgs)
    ensures
        r@ == unstage_view(window_id, all, active, opt_chars(appid), opt_chars(title)),
{
    UnstageArgs { window_id, all, active, appid, title }
}

/// Parses one request line.
pub fn parse_request(line: &str) -> (r: Result<Request, ParseError>)
    ensures
        result_view(r) == parse_words(words(line@)),
{
    let spans = split_words(line);
    let n = spans.len();
    if n == 0 {
        return Err(ParseError::UnknownCommand);
    }
    let is_add = word_is(line, &spans, 0, "add");
    if is_add || word_is(line, &spans, 0, "remove") {
        if n < 2 {
            return Err(ParseError::MissingWindowId);
        }
        return match id_word(line, &spans, 1) {
            Some(id) => if is_add {
                Ok(Request::Add { window_id: id })
            } else {
                Ok(Request::Remove { window_id: id })
            },
            None => Err(ParseError::InvalidWindowId),
        };
    }
    if word_is(line, &spans, 0, "list") {
        return Ok(Request::List);
    }
    if word_is(line, &spans, 0, "toggle_active") {
        return Ok(Request::ToggleActive);
    }
    if word_is(line, &spans, 0, "toggle_appid") {
        if n < 2 {
            return Err(ParseError::MissingAppid);
        }
        return Ok(Request::ToggleAppid { appid: word_string(line, &spans, 1) });
    }
    if word_is(line, &spans, 0, "toggle_title") {
        if n < 2 {
            return Err(ParseError::MissingTitle);
        }
        return Ok(Request::ToggleTitle { title: join_spans(line, &spans, 1) });
    }
    if word_is(line, &spans, 0, "stage") {
        return parse_stage_args(line, &spans);
    }
    if word_is(line, &spans, 0, "unstage") {
        return parse_unstage_args(line, &spans);
    }
    Err(ParseError::UnknownCommand)
}

fn parse_stage_args(line: &str, spans: &Vec<(usize, usize)>) -> (r: Result<Request, ParseError>)
    requires
        spans_in(line@, spans@),
    ensures
        result_view(r) == parse_stage(span_words(line@, spans@)),
{
    let n = spans.len();
    if n < 2 {
        return Err(ParseError::MissingStageArgument);
    }
    if word_is(line, spans, 1, "--toggle-appid") {
        if n < 3 {
            return Err(ParseError::MissingToggleAppid);
        }
        let appid = word_string(line, spans, 2);
        return Ok(Request::Stage(stage_args(None, false, false, false, Some(appid), None)));
    }
    if word_is(line, spans, 1, "--toggle-title") {
        if n < 3 {
            return Err(ParseError::MissingToggleTitle);
        }
        let title = join_spans(line, spans, 2);
        return Ok(Request::Stage(stage_args(None, false, false, false, None, Some(title))));
    }
    if word_is(line, spans, 1, "--all") {
        return Ok(Request::Stage(stage_args(None, true, false, false, None, None)));
    }
    if word_is(line, spans, 1, "--list") {
        return Ok(Request::Stage(stage_args(None, false, true, false, None, None)));
    }
    if word_is(line, spans, 1, "--active") {
        return Ok(Request::Stage(stage_args(None, false, false, true, None, None)));
    }
    if word_is(line, spans, 1, "--appid") {
        if n < 3 {
            return Err(ParseError::MissingStageAppid);
        }
        let appid = word_string(line, spans, 2);
        return Ok(Request::Stage(stage_args(None, false, false, false, Some(appid), None)));
    }
    if word_is(line, spans, 1, "--title") {
        if n < 3 {
            return Err(ParseError::MissingStageTitle);
        }
        let title = join_spans(line, spans, 2);
        return Ok(Request::Stage(stage_args(None, false, false, false, None, Some(title))));
    }
    match id_word(line, spans, 1) {
        Some(id) => Ok(Request::Stage(stage_args(Some(id), false, false, false, None, None))),
        None => Err(ParseError::InvalidWindowId),
    }
}

fn parse_unstage_args(line: &str, spans: &Vec<(usize, usize)>) -> (r: Result<Request, ParseError>)
    requires
        spans_in(line@, spans@),
    ensures
        result_view(r) == parse_unstage(span_words(line@, spans@)),
{
    let n = spans.len();
    if n < 2 {
        return Err(ParseError::MissingUnstageArgument);
    }
    if word_is(line, spans, 1, "--toggle-appid") {
        if n < 3 {
            return Err(ParseError::MissingToggleAppid);
        }
        return Ok(Request::ToggleAppid { appid: word_string(line, spans, 2) });
    }
    if word_is(line, spans, 1, "--toggle-title") {
        if n < 3 {
            return Err(ParseError::MissingToggleTitle);
        }
        return Ok(Request::ToggleTitle { title: join_spans(line, spans, 2) });
    }
    if word_is(line, spans, 1, "--all") {
        return Ok(Request::Unstage(unstage_args(None, true, false, None, None)));
    }
    if word_is(line, spans, 1, "--active") {
        return Ok(Request::Unstage(unstage_args(None, false, true, None, None)));
    }
    if word_is(line, spans, 1, "--appid") {
        if n < 3 {
            return Err(ParseError::MissingUnstageAppid);
        }
        let appid = word_string(line, spans, 2);
        return Ok(Request::Unstage(unstage_args(None, false, false, Some(appid), None)));
    }
    if word_is(line, spans, 1, "--title") {
        if n < 3 {
            return Err(ParseError::MissingUnstageTitle);
        }
        let title = join_spans(line, spans, 2);
        return Ok(Request::Unstage(unstage_args(None, false, false, None, Some(title))));
    }
    match id_word(line, spans, 1) {
        Some(id) => Ok(Request::Unstage(unstage_args(Some(id), false, false, None, None))),
        None => Err(ParseError::InvalidWindowId),
    }
}

/// Renders a reply as one line of text; error messages carry an `Error: ` prefix.
pub fn format_response(response: Response) -> (r: String)
    ensures
        r@ == match response {
            Response::Success(msg) => msg@,
            Response::Error(msg) => "Error: "@ + msg@,
            Response::Data(data) => data@,
        },
{
    match response {
        Response::Success(msg) => msg,
        Response::Error(msg) => {
            let mut out = "Error: ".to_owned();
            out.append(msg.as_str());
            out
        },
        Response::Data(data) => data,
    }
}

} // verus!

//! Hook events, decisions, and the dispatcher that turns one into the
//! other.
//!
//! The host pipes one event in and reads one decision back.  The decision
//! is encoded here, character for character, so the contract can state
//! the exact output: `{"decision":"approve"}`, or a `block` object whose
//! `reason` is a JSON string escaped the way the host expects.

use vstd::prelude::*;
use vstd::string::{StrSliceExecFns, StringExecFns};
use crate::config::{
    spec_disable_session, spec_enable, spec_enabled_config, spec_is_enabled,
    spec_session_disabled, ConfigManager, StoreV,
};
use crate::gate::{decide, spec_decide, EventKind, GateVerdict};
use crate::text::{is_blank, is_blank_seq, last_segment, spec_last_segment, str_eq};

verus! {

/// One decoded lifecycle event.  Absent fields default to empty or
/// `false`; an empty session id is tolerated, not an error.
pub struct HookInput {
    pub session_id: String,
    pub prompt: Option<String>,
    pub cwd: Option<String>,
    pub transcript_path: Option<String>,
    pub stop_hook_active: bool,
    pub user_prompt: Option<String>,
}

impl Default for HookInput {
    fn default() -> (r: Self)
        ensures
            r.session_id@ == Seq::<char>::empty(),
            r.prompt is None,
            r.cwd is None,
            r.transcript_path is None,
            r.stop_hook_active == false,
            r.user_prompt is None,
    {
        HookInput {
            session_id: String::new(),
            prompt: None,
            cwd: None,
            transcript_path: None,
            stop_hook_active: false,
            user_prompt: None,
        }
    }
}

/// The decision handed back to the host: let the event pass, or block it
/// with a human-readable reason.
pub enum HookDecision {
    Approve,
    Block { reason: String },
}

/// Mathematical view of a [`HookDecision`].
pub enum DecisionV {
    Approve,
    Block { reason: Seq<char> },
}

impl View for HookDecision {
    type V = DecisionV;

    open spec fn view(&self) -> DecisionV {
        match self {
            HookDecision::Approve => DecisionV::Approve,
            HookDecision::Block { reason } => DecisionV::Block { reason: reason@ },
        }
    }
}

/// Hex digit used in a JSON control-character escape, lower case.
pub open spec fn spec_hex_digit(n: u32) -> char {
    if n == 0 {
        '0'
    } else if n == 1 {
        '1'
    } else if n == 2 {
        '2'
    } else if n == 3 {
        '3'
    } else if n == 4 {
        '4'
    } else if n == 5 {
        '5'
    } else if n == 6 {
        '6'
    } else if n == 7 {
        '7'
    } else if n == 8 {
        '8'
    } else if n == 9 {
        '9'
    } else if n == 10 {
        'a'
    } else if n == 11 {
        'b'
    } else if n == 12 {
        'c'
    } else if n == 13 {
        'd'
    } else if n == 14 {
        'e'
    } else {
        'f'
    }
}

/// How one character appears inside a JSON string: quote, backslash and
/// the named control characters get a two-character escape, the other
/// control characters a `\u00..` escape, everything else stands as it is.
pub open spec fn json_escape_char(c: char) -> Seq<char> {
    let u = c as u32;
    if u == 0x22 {
        seq!['\\', '"']
    } else if u == 0x5C {
        seq!['\\', '\\']
    } else if u == 0x08 {
        seq!['\\', 'b']
    } else if u == 0x09 {
        seq!['\\', 't']
    } else if u == 0x0A {
        seq!['\\', 'n']
    } else if u == 0x0C {
        seq!['\\', 'f']
    } else if u == 0x0D {
        seq!['\\', 'r']
    } else if u < 0x20 {
        seq!['\\', 'u', '0', '0', spec_hex_digit(u / 16), spec_hex_digit(u % 16)]
    } else {
        seq![c]
    }
}

/// A whole string escaped for use inside JSON quotes.
pub open spec fn json_escape(s: Seq<char>) -> Seq<char>
    decreases s.len(),
{
    if s.len() == 0 {
        Seq::<char>::empty()
    } else {
        json_escape(s.drop_last()) + json_escape_char(s.last())
    }
}

fn hex_digit(n: u32) -> (r: &'static str)
    requires
        n < 16,
    ensures
        r@ == seq![spec_hex_digit(n)],
{
    proof {
        reveal_strlit("0");
        reveal_strlit("1");
        reveal_strlit("2");
        reveal_strlit("3");
        reveal_strlit("4");
        reveal_strlit("5");
        reveal_strlit("6");
        reveal_strlit("7");
        reveal_strlit("8");
        reveal_strlit("9");
        reveal_strlit("a");
        reveal_strlit("b");
        reveal_strlit("c");
        reveal_strlit("d");
        reveal_strlit("e");
        reveal_strlit("f");
    }
    if n == 0 {
        "0"
    } else if n == 1 {
        "1"
    } else if n == 2 {
        "2"
    } else if n == 3 {
        "3"
    } else if n == 4 {
        "4"
    } else if n == 5 {
        "5"
    } else if n == 6 {
        "6"
    } else if n == 7 {
        "7"
    } else if n == 8 {
        "8"
    } else if n == 9 {
        "9"
    } else if n == 10 {
        "a"
    } else if n == 11 {
        "b"
    } else if n == 12 {
        "c"
    } else if n == 13 {
        "d"
    } else if n == 14 {
        "e"
    } else {
        "f"
    }
}

/// Escapes `s` as the body of a JSON string.
pub fn json_escape_string(s: &str) -> (r: String)
    ensures
        r@ == json_escape(s@),
{
    let n = s.unicode_len();
    let mut out = String::new();
    let mut i: usize = 0;
    while i < n
        invariant
            i <= n,
            n == s@.len(),
            out@ == json_escape(s@.take(i as int)),
        decreases n - i,
    {
        let c = s.get_char(i);
        let u = c as u32;
        if u == 0x22 {
            proof {
                reveal_strlit("\\\"");
            }
            out.append("\\\"");
        } else if u == 0x5C {
            proof {
                reveal_strlit("\\\\");
            }
            out.append("\\\\");
        } else if u == 0x08 {
            proof {
                reveal_strlit("\\b");
            }
            out.append("\\b");
        } else if u == 0x09 {
            proof {
                reveal_strlit("\\t");
            }
            out.append("\\t");
        } else if u == 0x0A {
            proof {
                reveal_strlit("\\n");
            }
            out.append("\\n");
        } else if u == 0x0C {
            proof {
                reveal_strlit("\\f");
            }
            out.append("\\f");
        } else if u == 0x0D {
            proof {
                reveal_strlit("\\r");
            }
            out.append("\\r");
        } else if u < 0x20 {
            proof {
                reveal_strlit("\\u00");
            }
            out.append("\\u00");
            out.append(hex_digit(u / 16));
            out.append(hex_digit(u % 16));
        } else {
            let piece = s.substring_char(i, i + 1);
            out.append(piece);
        }
        proof {
            assert(s@.take(i + 1).drop_last() =~= s@.take(i as int));
            assert(s@.take(i + 1).last() == s@[i as int]);
            assert(out@ =~= json_escape(s@.take(i as int)) + json_escape_char(s@[i as int]));
        }
        i = i + 1;
    }
    proof {
        assert(s@.take(n as int) =~= s@);
    }
    out
}

/// The exact JSON encoding of a decision, with the `decision` key first
/// and, for a block, the `reason` key second.
pub open spec fn decision_json(d: DecisionV) -> Seq<char> {
    match d {
        DecisionV::Approve => "{\"decision\":\"approve\"}"@,
        DecisionV::Block { reason } => "{\"decision\":\"block\",\"reason\":\""@ + json_escape(
            reason,
        ) + "\"}"@,
    }
}

impl HookDecision {
    /// Encodes the decision as the one-line JSON object the host reads.
    pub fn to_json(&self) -> (r: String)
        ensures
            r@ == decision_json(self@),
    {
        match self {
            HookDecision::Approve => "{\"decision\":\"approve\"}".to_owned(),
            HookDecision::Block { reason } => {
                let mut out = "{\"decision\":\"block\",\"reason\":\"".to_owned();
                out.append(json_escape_string(reason.as_str()).as_str());
                out.append("\"}");
                proof {
                    assert(out@ =~= decision_json(self@));
                }
                out
            },
        }
    }
}

/// Why an invocation can fail outright: the event could not be decoded
/// (raised by the host-side decoder, never by [`HookHandler::handle`]),
/// the event kind is none of the known three, or a handler needed the
/// config record and there was none.
#[derive(Clone, Copy, PartialEq, Eq, Structural, Debug)]
pub enum HookError {
    MalformedInput,
    UnknownEventKind,
    ConfigUnavailable,
}

/// A request to send one text through the messenger: the command to run,
/// the target id, and the message body.  The caller performs it
/// best-effort and swallows failures.
pub struct NotifyRequest {
    pub command: String,
    pub wxid: String,
    pub message: String,
}

/// Mathematical view of a [`NotifyRequest`].
pub struct NotifyV {
    pub command: Seq<char>,
    pub wxid: Seq<char>,
    pub message: Seq<char>,
}

impl View for NotifyRequest {
    type V = NotifyV;

    open spec fn view(&self) -> NotifyV {
        NotifyV { command: self.command@, wxid: self.wxid@, message: self.message@ }
    }
}

/// A request to record a session's transcript path in the registry.  The
/// caller performs it best-effort and swallows failures.
pub struct RegisterRequest {
    pub session_id: String,
    pub transcript_path: String,
}

/// Mathematical view of a [`RegisterRequest`].
pub struct RegisterV {
    pub session_id: Seq<char>,
    pub transcript_path: Seq<char>,
}

impl View for RegisterRequest {
    type V = RegisterV;

    open spec fn view(&self) -> RegisterV {
        RegisterV { session_id: self.session_id@, transcript_path: self.transcript_path@ }
    }
}

/// What one invocation hands back: the decision for the host, plus the
/// side effects the caller should perform.
pub struct HookResponse {
    pub decision: HookDecision,
    pub notify: Option<NotifyRequest>,
    pub register: Option<RegisterRequest>,
}

/// Mathematical view of a [`HookResponse`].
pub struct ResponseV {
    pub decision: DecisionV,
    pub notify: Option<NotifyV>,
    pub register: Option<RegisterV>,
}

impl View for HookResponse {
    type V = ResponseV;

    open spec fn view(&self) -> ResponseV {
        ResponseV {
            decision: self.decision@,
            notify: match self.notify {
                Some(n) => Some(n@),
                None => None,
            },
            register: match self.register {
                Some(g) => Some(g@),
                None => None,
            },
        }
    }
}

/// The full effect of one invocation: its result and the store it leaves
/// behind.
pub struct OutcomeV {
    pub result: Result<ResponseV, HookError>,
    pub store: StoreV,
}

pub open spec fn approve_response() -> ResponseV {
    ResponseV { decision: DecisionV::Approve, notify: None, register: None }
}

pub open spec fn block_response(reason: Seq<char>) -> ResponseV {
    ResponseV { decision: DecisionV::Block { reason }, notify: None, register: None }
}

/// The project name shown in messages: the last path segment of the
/// working directory, or `unknown` when there is none.
pub open spec fn spec_project_of(cwd: Option<Seq<char>>) -> Seq<char> {
    match cwd {
        None => "unknown"@,
        Some(p) => match spec_last_segment(p, p.len() as int) {
            Some(s) => s,
            None => "unknown"@,
        },
    }
}

/// The working directory as shown in messages: the path itself, or
/// `unknown` when absent.
pub open spec fn spec_cwd_display(cwd: Option<Seq<char>>) -> Seq<char> {
    match cwd {
        Some(p) => p,
        None => "unknown"@,
    }
}

/// Confirmation text echoed after enabling remote mode.
pub open spec fn remote_on_reason(wxid: Seq<char>, listen: Seq<char>) -> Seq<char> {
    "✅ 远程模式已启用\n\n配置信息：\n- 目标微信："@ + wxid + "\n- 监听地址："@ + listen
        + "\n- 标记文件：~/.gewe-cc/remote.lock\n\n任务完成后将自动等待微信指令。"@
}

/// Confirmation text echoed after a session-scoped disable; when the id
/// was blank, it says explicitly that nothing could be recorded.
pub open spec fn remote_off_reason(session_id: Seq<char>, blank: bool) -> Seq<char> {
    "✅ 当前会话的远程模式已关闭\n\n会话 ID: "@ + session_id
        + "\n\n全局远程模式仍处于启用状态，后续新任务将继续进入远程控制。"@ + (if blank {
        "\n\n⚠️ 未获取到会话 ID，无法记录会话禁用状态。"@
    } else {
        Seq::<char>::empty()
    })
}

/// Status text: config details are shown only while enabled.
pub open spec fn status_reason(enabled: bool, wxid: Seq<char>, listen: Seq<char>) -> Seq<char> {
    if enabled {
        "📊 远程模式状态\n\n状态：✅ 已启用\n配置：\n- 目标微信："@ + wxid + "\n- 监听地址："@
            + listen + "\n- 标记文件：~/.gewe-cc/remote.lock"@
    } else {
        "📊 远程模式状态\n\n状态：❌ 未启用\n\n使用 >remote-on 启用远程模式。"@
    }
}

/// The context block appended to every stop reason.
pub open spec fn stop_context(project: Seq<char>, dir: Seq<char>, session_id: Seq<char>) -> Seq<
    char,
> {
    "上下文信息：\n- 项目: "@ + project + "\n- 目录: "@ + dir + "\n- 会话: "@ + session_id
}

/// The reason attached to an intercepted stop: the caller-supplied text
/// when one was given, else the default instruction to activate the
/// remote-control capability.
pub open spec fn stop_reason(
    user_prompt: Option<Seq<char>>,
    project: Seq<char>,
    dir: Seq<char>,
    session_id: Seq<char>,
) -> Seq<char> {
    match user_prompt {
        Some(custom) => "🔄 远程模式已启用\n\n"@ + custom + "\n\n"@ + stop_context(
            project,
            dir,
            session_id,
        ),
        None => "🔄 远程模式已启用 - 如果未激活，请立即激活 remote-control skill\n\n执行：/gewe-cc:remote-control\n\n"@
            + stop_context(project, dir, session_id),
    }
}

/// The fixed-template idle notification sent through the messenger.
pub open spec fn idle_message(project: Seq<char>, session_id: Seq<char>) -> Seq<char> {
    "【gewe-cc】\n⚠️ 会话可能挂起\n📁 项目: "@ + project
        + "\n🕐 检测到 60 秒以上无响应\n\n请检查终端是否在等待输入。\n会话 ID: "@ + session_id
}

/// The reserved prompt values that short-circuit to a responder.
pub open spec fn spec_is_command(prompt: Option<Seq<char>>) -> bool {
    prompt matches Some(p) && (p == ">remote-on"@ || p == ">remote-off"@ || p
        == ">remote-status"@)
}

/// Effect of the `>remote-on` responder: both enabled encodings are
/// written, and the confirmation carries the resulting config's target
/// id and listen address.
pub open spec fn spec_remote_on(s: StoreV) -> OutcomeV {
    let c = spec_enabled_config(s);
    OutcomeV {
        result: Ok(block_response(remote_on_reason(c.wxid, c.listen))),
        store: spec_enable(s),
    }
}

/// Effect of the `>remote-off` responder: a session-scoped disable that
/// leaves the global flag alone; a blank id records nothing and the
/// reason says so.
pub open spec fn spec_remote_off(s: StoreV, session_id: Seq<char>) -> OutcomeV {
    OutcomeV {
        result: Ok(block_response(remote_off_reason(session_id, is_blank_seq(session_id)))),
        store: spec_disable_session(s, session_id),
    }
}

/// Effect of the `>remote-status` responder: a pure read; without a
/// config record no useful status text can be built, so it fails.
pub open spec fn spec_remote_status(s: StoreV) -> OutcomeV {
    match s.config {
        None => OutcomeV { result: Err(HookError::ConfigUnavailable), store: s },
        Some(c) => OutcomeV {
            result: Ok(block_response(status_reason(spec_is_enabled(s), c.wxid, c.listen))),
            store: s,
        },
    }
}

/// Effect of a prompt-submission event: the three reserved commands go
/// to their responders; every other prompt is approved unconditionally,
/// with no gating logic run.
pub open spec fn spec_prompt_submit(input: HookInput, s: StoreV) -> OutcomeV {
    match input.prompt {
        Some(p) => if p@ == ">remote-on"@ {
            spec_remote_on(s)
        } else if p@ == ">remote-off"@ {
            spec_remote_off(s, input.session_id@)
        } else if p@ == ">remote-status"@ {
            spec_remote_status(s)
        } else {
            OutcomeV { result: Ok(approve_response()), store: s }
        },
        None => OutcomeV { result: Ok(approve_response()), store: s },
    }
}

/// Effect of a stop event: the session gate decides; a proceeding event is
/// approved, an intercepted one is blocked with the stop reason, and the
/// session's transcript path is handed back for best-effort registration
/// when one was supplied.
pub open spec fn spec_stop(input: HookInput, s: StoreV) -> OutcomeV {
    if spec_decide(s, EventKind::Stop, input.session_id@, input.stop_hook_active)
        is Proceed {
        OutcomeV { result: Ok(approve_response()), store: s }
    } else {
        let reason = stop_reason(
            input.user_prompt.deep_view(),
            spec_project_of(input.cwd.deep_view()),
            spec_cwd_display(input.cwd.deep_view()),
            input.session_id@,
        );
        let register = match input.transcript_path {
            Some(t) => Some(RegisterV { session_id: input.session_id@, transcript_path: t@ }),
            None => None,
        };
        OutcomeV {
            result: Ok(
                ResponseV { decision: DecisionV::Block { reason }, notify: None, register },
            ),
            store: s,
        }
    }
}

/// Effect of an idle-notification event: nothing happens while remote
/// mode is off; while on, the idle message is handed back to be sent,
/// and the event is approved either way — this kind never blocks.
pub open spec fn spec_notification(input: HookInput, s: StoreV) -> OutcomeV {
    if !spec_is_enabled(s) {
        OutcomeV { result: Ok(approve_response()), store: s }
    } else {
        match s.config {
            None => OutcomeV { result: Err(HookError::ConfigUnavailable), store: s },
            Some(c) => OutcomeV {
                result: Ok(
                    ResponseV {
                        decision: DecisionV::Approve,
                        notify: Some(
                            NotifyV {
                                command: c.command,
                                wxid: c.wxid,
                                message: idle_message(
                                    spec_project_of(input.cwd.deep_view()),
                                    input.session_id@,
                                ),
                            },
                        ),
                        register: None,
                    },
                ),
                store: s,
            },
        }
    }
}

/// The whole dispatcher: route by event kind, or fail on an unknown one.
pub open spec fn spec_handle(kind: Seq<char>, input: HookInput, s: StoreV) -> OutcomeV {
    if kind == "user-prompt-submit"@ {
        spec_prompt_submit(input, s)
    } else if kind == "stop"@ {
        spec_stop(input, s)
    } else if kind == "notification"@ {
        spec_notification(input, s)
    } else {
        OutcomeV { result: Err(HookError::UnknownEventKind), store: s }
    }
}

fn project_of<'a>(cwd: &'a Option<String>) -> (r: &'a str)
    ensures
        r@ == spec_project_of(cwd.deep_view()),
{
    match cwd {
        Some(p) => match last_segment(p.as_str()) {
            Some(s) => s,
            None => "unknown",
        },
        None => "unknown",
    }
}

fn cwd_display<'a>(cwd: &'a Option<String>) -> (r: &'a str)
    ensures
        r@ == spec_cwd_display(cwd.deep_view()),
{
    match cwd {
        Some(p) => p.as_str(),
        None => "unknown",
    }
}

fn approve() -> (r: HookResponse)
    ensures
        r@ == approve_response(),
{
    HookResponse { decision: HookDecision::Approve, notify: None, register: None }
}

fn build_remote_on_reason(wxid: &str, listen: &str) -> (r: String)
    ensures
        r@ == remote_on_reason(wxid@, listen@),
{
    let mut out = "✅ 远程模式已启用\n\n配置信息：\n- 目标微信：".to_owned();
    out.append(wxid);
    out.append("\n- 监听地址：");
    out.append(listen);
    out.append("\n- 标记文件：~/.gewe-cc/remote.lock\n\n任务完成后将自动等待微信指令。");
    proof {
        assert(out@ =~= remote_on_reason(wxid@, listen@));
    }
    out
}

fn build_remote_off_reason(session_id: &str, blank: bool) -> (r: String)
    ensures
        r@ == remote_off_reason(session_id@, blank),
{
    let mut out = "✅ 当前会话的远程模式已关闭\n\n会话 ID: ".to_owned();
    out.append(session_id);
    out.append("\n\n全局远程模式仍处于启用状态，后续新任务将继续进入远程控制。");
    if blank {
        out.append("\n\n⚠️ 未获取到会话 ID，无法记录会话禁用状态。");
    }
    proof {
        assert(out@ =~= remote_off_reason(session_id@, blank));
    }
    out
}

fn build_status_reason(enabled: bool, wxid: &str, listen: &str) -> (r: String)
    ensures
        r@ == status_reason(enabled, wxid@, listen@),
{
    if enabled {
        let mut out = "📊 远程模式状态\n\n状态：✅ 已启用\n配置：\n- 目标微信：".to_owned();
        out.append(wxid);
        out.append("\n- 监听地址：");
        out.append(listen);
        out.append("\n- 标记文件：~/.gewe-cc/remote.lock");
        proof {
            assert(out@ =~= status_reason(enabled, wxid@, listen@));
        }
        out
    } else {
        "📊 远程模式状态\n\n状态：❌ 未启用\n\n使用 >remote-on 启用远程模式。".to_owned()
    }
}

fn build_stop_reason(
    user_prompt: &Option<String>,
    cwd: &Option<String>,
    session_id: &str,
) -> (r: String)
    ensures
        r@ == stop_reason(
            user_prompt.deep_view(),
            spec_project_of(cwd.deep_view()),
            spec_cwd_display(cwd.deep_view()),
            session_id@,
        ),
{
    let project = project_of(cwd);
    let dir = cwd_display(cwd);
    let mut out = match user_prompt {
        Some(custom) => {
            let mut o = "🔄 远程模式已启用\n\n".to_owned();
            o.append(custom.as_str());
            o.append("\n\n");
            o
        },
        None => {
            "🔄 远程模式已启用 - 如果未激活，请立即激活 remote-control skill\n\n执行：/gewe-cc:remote-control\n\n".to_owned()
        },
    };
    out.append("上下文信息：\n- 项目: ");
    out.append(project);
    out.append("\n- 目录: ");
    out.append(dir);
    out.append("\n- 会话: ");
    out.append(session_id);
    proof {
        assert(out@ =~= stop_reason(
            user_prompt.deep_view(),
            spec_project_of(cwd.deep_view()),
            spec_cwd_display(cwd.deep_view()),
            session_id@,
        ));
    }
    out
}

fn build_idle_message(cwd: &Option<String>, session_id: &str) -> (r: String)
    ensures
        r@ == idle_message(spec_project_of(cwd.deep_view()), session_id@),
{
    let project = project_of(cwd);
    let mut out = "【gewe-cc】\n⚠️ 会话可能挂起\n📁 项目: ".to_owned();
    out.append(project);
    out.append("\n🕐 检测到 60 秒以上无响应\n\n请检查终端是否在等待输入。\n会话 ID: ");
    out.append(session_id);
    proof {
        assert(out@ =~= idle_message(spec_project_of(cwd.deep_view()), session_id@));
    }
    out
}

/// The `>remote-on` responder: enables remote mode in both encodings and
/// echoes the configuration back through the block reason.
pub fn handle_remote_on(store: &mut ConfigManager) -> (d: HookDecision)
    ensures
        ({
            let out = spec_remote_on(old(store)@);
            &&& final(store)@ == out.store
            &&& out.result matches Ok(resp) && resp.decision == d@
        }),
{
    store.enable_remote();
    match store.config() {
        Some(c) => {
            let reason = build_remote_on_reason(
                c.notification.wxid.as_str(),
                c.notification.listen.as_str(),
            );
            HookDecision::Block { reason }
        },
        None => {
            // Enabling always leaves a config record in place.
            proof {
                assert(false);
            }
            HookDecision::Approve
        },
    }
}

/// The `>remote-off` responder: records a session-scoped disable and
/// confirms it; the global flag is left alone.
pub fn handle_remote_off(store: &mut ConfigManager, session_id: &str) -> (d: HookDecision)
    ensures
        ({
            let out = spec_remote_off(old(store)@, session_id@);
            &&& final(store)@ == out.store
            &&& out.result matches Ok(resp) && resp.decision == d@
        }),
{
    let blank = is_blank(session_id);
    store.disable_session(session_id);
    let reason = build_remote_off_reason(session_id, blank);
    HookDecision::Block { reason }
}

/// The `>remote-status` responder: a pure read of the store.
pub fn handle_remote_status(store: &ConfigManager) -> (d: Result<HookDecision, HookError>)
    ensures
        ({
            let out = spec_remote_status(store@);
            &&& out.store == store@
            &&& (match (d, out.result) {
                (Ok(dec), Ok(resp)) => resp.decision == dec@,
                (Err(e), Err(ev)) => e == ev,
                _ => false,
            })
        }),
{
    match store.config() {
        None => Err(HookError::ConfigUnavailable),
        Some(c) => {
            let enabled = store.is_remote_enabled();
            let reason = build_status_reason(
                enabled,
                c.notification.wxid.as_str(),
                c.notification.listen.as_str(),
            );
            Ok(HookDecision::Block { reason })
        },
    }
}

/// Dispatch for a prompt-submission event.
pub fn handle_user_prompt_submit(input: HookInput, store: &mut ConfigManager) -> (r: Result<
    HookResponse,
    HookError,
>)
    ensures
        ({
            let out = spec_prompt_submit(input, old(store)@);
            &&& final(store)@ == out.store
            &&& (match (r, out.result) {
                (Ok(resp), Ok(v)) => resp@ == v,
                (Err(e), Err(ev)) => e == ev,
                _ => false,
            })
        }),
{
    match &input.prompt {
        Some(p) => {
            if str_eq(p.as_str(), ">remote-on") {
                let d = handle_remote_on(store);
                Ok(HookResponse { decision: d, notify: None, register: None })
            } else if str_eq(p.as_str(), ">remote-off") {
                let d = handle_remote_off(store, input.session_id.as_str());
                Ok(HookResponse { decision: d, notify: None, register: None })
            } else if str_eq(p.as_str(), ">remote-status") {
                match handle_remote_status(store) {
                    Ok(d) => Ok(HookResponse { decision: d, notify: None, register: None }),
                    Err(e) => Err(e),
                }
            } else {
                Ok(approve())
            }
        },
        None => Ok(approve()),
    }
}

/// Dispatch for a stop event.  The store is only read; the transcript
/// registration is handed back as a request so the caller can perform it
/// best-effort.
pub fn handle_stop(input: HookInput, store: &ConfigManager) -> (r: HookResponse)
    ensures
        ({
            let out = spec_stop(input, store@);
            out.result matches Ok(resp) && r@ == resp
        }),
{
    let verdict = decide(
        store,
        EventKind::Stop,
        input.session_id.as_str(),
        input.stop_hook_active,
    );
    if matches!(verdict, GateVerdict::Proceed) {
        return approve();
    }
    let reason = build_stop_reason(&input.user_prompt, &input.cwd, input.session_id.as_str());
    let HookInput { session_id, transcript_path, .. } = input;
    let register = match transcript_path {
        Some(t) => Some(RegisterRequest { session_id, transcript_path: t }),
        None => None,
    };
    HookResponse { decision: HookDecision::Block { reason }, notify: None, register }
}

/// Dispatch for an idle-notification event.  The decision is always
/// approve; while remote mode is on, the idle message is handed back to
/// be sent through the messenger.
pub fn handle_notification(input: HookInput, store: &ConfigManager) -> (r: Result<
    HookResponse,
    HookError,
>)
    ensures
        ({
            let out = spec_notification(input, store@);
            match (r, out.result) {
                (Ok(resp), Ok(v)) => resp@ == v,
                (Err(e), Err(ev)) => e == ev,
                _ => false,
            }
        }),
{
    if !store.is_remote_enabled() {
        return Ok(approve());
    }
    match store.config() {
        None => Err(HookError::ConfigUnavailable),
        Some(c) => {
            let message = build_idle_message(&input.cwd, input.session_id.as_str());
            Ok(
                HookResponse {
                    decision: HookDecision::Approve,
                    notify: Some(
                        NotifyRequest {
                            command: c.gewe_cli.command.clone(),
                            wxid: c.notification.wxid.clone(),
                            message,
                        },
                    ),
                    register: None,
                },
            )
        },
    }
}

/// The dispatcher's entry point.
pub struct HookHandler;

impl HookHandler {
    /// Routes one event to its handler.  The returned response and the
    /// store left behind are exactly what [`spec_handle`] gives for the
    /// event; an unknown kind fails before any state is touched.
    pub fn handle(hook_type: &str, input: HookInput, store: &mut ConfigManager) -> (r: Result<
        HookResponse,
        HookError,
    >)
        ensures
            final(store)@ == spec_handle(hook_type@, input, old(store)@).store,
            (match (r, spec_handle(hook_type@, input, old(store)@).result) {
                (Ok(resp), Ok(v)) => resp@ == v,
                (Err(e), Err(ev)) => e == ev,
                _ => false,
            }),
    {
        if str_eq(hook_type, "user-prompt-submit") {
            handle_user_prompt_submit(input, store)
        } else if str_eq(hook_type, "stop") {
            Ok(handle_stop(input, store))
        } else if str_eq(hook_type, "notification") {
            handle_notification(input, store)
        } else {
            Err(HookError::UnknownEventKind)
        }
    }
}

/// The stop-loop guard: a stop event that arrives while the host is
/// already replaying the stop hook is approved, whatever the store
/// holds, and the store is left untouched.  This is what keeps the host
/// out of an unbounded stop, block, stop cycle.
pub proof fn lemma_stop_loop_guard(input: HookInput, s: StoreV)
    requires
        input.stop_hook_active,
    ensures
        ({
            let out = spec_handle("stop"@, input, s);
            &&& out.store == s
            &&& out.result matches Ok(v) && v.decision is Approve
        }),
{
    proof_kind_literals();
}

/// While remote mode is off, nothing is intercepted and nothing is
/// sent: an ordinary prompt, a stop and an idle notification are all
/// approved, with no notification request and no store change.
pub proof fn lemma_disabled_store_approves(kind: Seq<char>, input: HookInput, s: StoreV)
    requires
        !spec_is_enabled(s),
        kind == "user-prompt-submit"@ || kind == "stop"@ || kind == "notification"@,
        kind == "user-prompt-submit"@ ==> !spec_is_command(input.prompt.deep_view()),
    ensures
        ({
            let out = spec_handle(kind, input, s);
            &&& out.store == s
            &&& out.result matches Ok(v) && v.decision is Approve
            &&& out.result matches Ok(v) && v.notify is None
        }),
{
    proof_kind_literals();
}

/// A session-scoped disable only silences the session gate: with remote mode on
/// and the session disabled, a stop is approved, yet the three control
/// commands still run and still answer through a block.
pub proof fn lemma_session_disable_scope(input: HookInput, s: StoreV)
    requires
        spec_is_enabled(s),
        spec_session_disabled(s, input.session_id@),
    ensures
        ({
            let out = spec_handle("stop"@, input, s);
            &&& out.store == s
            &&& out.result matches Ok(v) && v.decision is Approve
        }),
        (spec_is_command(input.prompt.deep_view()) && (input.prompt.deep_view() == Some(
            ">remote-status"@,
        ) ==> s.config is Some)) ==> ({
            let out = spec_handle("user-prompt-submit"@, input, s);
            out.result matches Ok(v) && v.decision is Block
        }),
{
    proof_kind_literals();
}

/// Enabling remote mode is idempotent: a second `>remote-on` leaves the
/// store exactly as the first did — enabled in both encodings — and
/// answers with the same reason text.
pub proof fn lemma_remote_on_idempotent(s: StoreV)
    ensures
        ({
            let once = spec_remote_on(s);
            let twice = spec_remote_on(once.store);
            &&& spec_is_enabled(once.store)
            &&& twice.store == once.store
            &&& twice.result == once.result
        }),
{
}

/// A disabled session stays disabled: no event, of any kind, ever
/// removes an id from the disabled-session set.
pub proof fn lemma_disabled_sessions_monotone(
    kind: Seq<char>,
    input: HookInput,
    s: StoreV,
    id: Seq<char>,
)
    requires
        s.disabled.contains(id),
    ensures
        spec_handle(kind, input, s).store.disabled.contains(id),
{
    let j = choose|j: int| 0 <= j < s.disabled.len() && s.disabled[j] == id;
    assert(s.disabled.push(input.session_id@)[j] == id);
}

/// Every block the dispatcher produces carries a non-empty reason.
pub proof fn lemma_block_reason_nonempty(kind: Seq<char>, input: HookInput, s: StoreV)
    ensures
        ({
            let out = spec_handle(kind, input, s);
            out.result matches Ok(v) ==> (v.decision matches DecisionV::Block { reason }
                ==> reason.len() > 0)
        }),
{
    reveal_strlit("✅ 远程模式已启用\n\n配置信息：\n- 目标微信：");
    reveal_strlit("✅ 当前会话的远程模式已关闭\n\n会话 ID: ");
    reveal_strlit("📊 远程模式状态\n\n状态：✅ 已启用\n配置：\n- 目标微信：");
    reveal_strlit("📊 远程模式状态\n\n状态：❌ 未启用\n\n使用 >remote-on 启用远程模式。");
    reveal_strlit("🔄 远程模式已启用\n\n");
    reveal_strlit(
        "🔄 远程模式已启用 - 如果未激活，请立即激活 remote-control skill\n\n执行：/gewe-cc:remote-control\n\n",
    );
}

/// The three event-kind selectors are pairwise distinct literals.
proof fn proof_kind_literals()
    ensures
        "user-prompt-submit"@ != "stop"@,
        "user-prompt-submit"@ != "notification"@,
        "stop"@ != "notification"@,
{
    reveal_strlit("user-prompt-submit");
    reveal_strlit("stop");
    reveal_strlit("notification");
    assert("user-prompt-submit"@.len() != "stop"@.len());
    assert("user-prompt-submit"@.len() != "notification"@.len());
    assert("stop"@.len() != "notification"@.len());
}

/// Every character contributes at least one character to its escape, so
/// escaping never empties a non-empty reason.
pub proof fn lemma_json_escape_len(s: Seq<char>)
    ensures
        json_escape(s).len() >= s.len(),
    decreases s.len(),
{
    if s.len() > 0 {
        lemma_json_escape_len(s.drop_last());
    }
}

/// The decision encoding is exactly what the host relies on: `Approve`
/// gives the literal approve object, and a block gives the object with
/// `decision` before `reason`, the reason escaped in place and as long
/// as the reason itself, so a non-empty reason never encodes to nothing.
pub proof fn lemma_decision_json_shape(d: DecisionV)
    ensures
        d is Approve ==> decision_json(d) == "{\"decision\":\"approve\"}"@,
        d matches DecisionV::Block { reason } ==> decision_json(d)
            == "{\"decision\":\"block\",\"reason\":\""@ + json_escape(reason) + "\"}"@,
        d matches DecisionV::Block { reason } ==> json_escape(reason).len() >= reason.len(),
{
    match d {
        DecisionV::Block { reason } => lemma_json_escape_len(reason),
        DecisionV::Approve => {},
    }
}

} // verus!

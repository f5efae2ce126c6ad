//! The session orchestrator: one state machine owning the conversation, the
//! input line, the queue of texts typed while a request is outstanding, the
//! tool-confirmation gate, and the per-session log view.
//!
//! Every entry point takes the session by `&mut`, performs one step, and
//! returns an [`Effect`] telling the surrounding process what outside work to
//! do (spawn a request task, run an approved tool, toggle mouse capture).
//! The surrounding process performs it and feeds the outcome back in through
//! `on_response`, `on_tool_result`, or `on_tool_defs`.

use vstd::prelude::*;

use crate::config::{Config, McpServerConfig};
use crate::event::{Event, Key, MouseKind, PaneLayout};
use crate::message::{ChatMessage, MessageRole, PendingToolCall, ToolDef};
use crate::ring::LogView;
use crate::text::{
    chars_of, dec_str, has_match, is_space_char, lower_seq, starts_with_char, str_eq,
    string_after_last_match, after_last_match, trim_str, trimmed, u64_to_string, words_of,
};
use crate::trusted::{new_cancellation_token, signal_cancellation};
use tokio_util::sync::CancellationToken;

verus! {

/// What the surrounding process must do after a call into the session.
#[derive(Debug)]
pub enum Effect {
    /// Nothing beyond redrawing.
    Nothing,
    /// Spawn one request task for `prompt`, racing completion against the
    /// session's current cancellation token and the request ceiling, and
    /// hand the outcome back through `on_response`.
    StartRequest { prompt: String },
    /// Turn terminal mouse capture on.
    EnableMouseCapture,
    /// Turn terminal mouse capture off.
    DisableMouseCapture,
    /// Run the approved tool and hand the outcome back through
    /// `on_tool_result`.
    ExecuteTool { tool_name: String, arguments: String },
    /// Ask the tool server for its tool definitions and hand them back
    /// through `on_tool_defs`.
    FetchToolDefs,
}

/// A raw error string with repeated tool-call prefixes cut away: everything
/// after the last `Tool call error:` (or `ToolCallError:`) marker, trimmed.
pub open spec fn cleaned_error(raw: Seq<char>) -> Seq<char> {
    if has_match(raw, "Tool call error:"@) {
        trimmed(after_last_match(raw, "Tool call error:"@))
    } else if has_match(raw, "ToolCallError:"@) {
        trimmed(after_last_match(raw, "ToolCallError:"@))
    } else {
        raw
    }
}

/// Cut repeated tool-call prefixes out of an error string.
pub fn clean_error(raw: &str) -> (r: String)
    ensures
        r@ == cleaned_error(raw@),
{
    proof {
        reveal_strlit("Tool call error:");
        reveal_strlit("ToolCallError:");
    }
    if let Some(t) = string_after_last_match(raw, "Tool call error:") {
        trim_str(t.as_str())
    } else if let Some(t) = string_after_last_match(raw, "ToolCallError:") {
        trim_str(t.as_str())
    } else {
        raw.to_owned()
    }
}

/// Status shown while requests are outstanding and `n` texts are queued.
pub open spec fn queued_status(n: int) -> Seq<char> {
    "Thinking... ("@ + dec_str(n) + " queued)"@
}

fn queued_status_string(n: u64) -> (s: String)
    ensures
        s@ == queued_status(n as int),
{
    let mut s = "Thinking... (".to_owned();
    let digits = u64_to_string(n);
    s.append(digits.as_str());
    s.append(" queued)");
    s
}

/// The status line shown once a response arrives.
pub open spec fn response_status(result: Result<String, String>) -> Seq<char> {
    match result {
        Ok(r) => if trimmed(r@).len() == 0 {
            "\u{26a0} Empty response from model"@
        } else {
            "\u{2713} Ready"@
        },
        Err(e) => "\u{2717} Error: "@ + cleaned_error(e@),
    }
}

/// The conversation entry appended for a response.
pub open spec fn response_message_text(result: Result<String, String>) -> Seq<char> {
    match result {
        Ok(r) => if trimmed(r@).len() == 0 {
            "\u{26a0} The model returned an empty response. This may indicate a problem with the model or the request."@
        } else {
            r@
        },
        Err(e) => "\u{26a0} **Error:** "@ + cleaned_error(e@),
    }
}

/// `text` names a local command: its trimmed form starts with the command
/// marker.
pub open spec fn is_command_input(text: Seq<char>) -> bool {
    trimmed(text).len() > 0 && trimmed(text)[0] == '/'
}

/// `post` holds no User message that `pre` did not already hold, in the
/// same place: nothing was handed to the model.
pub open spec fn gains_no_user_message(pre: Seq<ChatMessage>, post: Seq<ChatMessage>) -> bool {
    forall|i: int|
        0 <= i < post.len() && (#[trigger] post[i]).role is User ==> i < pre.len() && post[i]
            == pre[i]
}

proof fn lemma_push_non_user_gains_none(pre: Seq<ChatMessage>, m: ChatMessage)
    requires
        !(m.role is User),
    ensures
        gains_no_user_message(pre, pre.push(m)),
{
    assert forall|i: int|
        0 <= i < pre.push(m).len() && (#[trigger] pre.push(m)[i]).role is User implies i
        < pre.len() && pre.push(m)[i] == pre[i] by {
        if i < pre.len() {
            assert(pre.push(m)[i] == pre[i]);
        } else {
            assert(pre.push(m)[i] == m);
        }
    }
}

proof fn lemma_same_conversation_gains_none(pre: Seq<ChatMessage>, post: Seq<ChatMessage>)
    requires
        post == pre,
    ensures
        gains_no_user_message(pre, post),
{
}

/// Texts that are not local commands stay so when joined by blank
/// whitespace: the flattened queue is again a real submission, never a
/// command.
pub proof fn lemma_joined_texts_not_command(parts: Seq<Seq<char>>, sep: Seq<char>)
    requires
        forall|i: int| 0 <= i < parts.len() ==> !is_command_input(#[trigger] parts[i]),
        forall|j: int| 0 <= j < sep.len() ==> is_space_char(#[trigger] sep[j]),
    ensures
        !is_command_input(crate::text::joined_with(parts, sep)),
    decreases parts.len(),
{
    let joined = crate::text::joined_with(parts, sep);
    if parts.len() == 0 {
        crate::text::lemma_trimmed_head_via_leading(joined);
    } else if parts.len() == 1 {
        assert(joined == parts[0]);
    } else {
        let rest = crate::text::joined_with(parts.drop_first(), sep);
        assert(forall|i: int|
            0 <= i < parts.drop_first().len() ==> !is_command_input(
                #[trigger] parts.drop_first()[i],
            ));
        lemma_joined_texts_not_command(parts.drop_first(), sep);
        assert(joined =~= parts[0] + (sep + rest));
        crate::text::lemma_drop_leading_concat(parts[0], sep + rest);
        let d0 = crate::text::drop_leading_spaces(parts[0]);
        crate::text::lemma_trimmed_head_via_leading(parts[0]);
        crate::text::lemma_trimmed_head_via_leading(joined);
        if d0.len() > 0 {
            assert((d0 + (sep + rest))[0] == d0[0]);
            assert(trimmed(parts[0])[0] == d0[0]);
        } else {
            crate::text::lemma_drop_leading_concat(sep, rest);
            crate::text::lemma_drop_leading_all_spaces(sep);
            assert(crate::text::drop_leading_spaces(joined) == crate::text::drop_leading_spaces(
                rest,
            ));
            crate::text::lemma_trimmed_head_via_leading(rest);
        }
    }
}

/// `a - b`, stopping at zero.
pub open spec fn sub0(a: int, b: int) -> int {
    if a >= b {
        a - b
    } else {
        0
    }
}

/// `a + b`, stopping at the largest `usize` value.
pub open spec fn addcap(a: int, b: int) -> int {
    if a + b <= usize::MAX {
        a + b
    } else {
        usize::MAX as int
    }
}

/// What submitting `text` does to the session: a command is interpreted
/// locally; otherwise the text is queued while a request is outstanding,
/// and otherwise becomes a User message and starts exactly one request.
pub open spec fn submit_post(
    pre: SessionState,
    post: SessionState,
    text: Seq<char>,
    now: u64,
    e: Effect,
) -> bool {
    &&& (is_command_input(text) ==> {
        &&& post == (SessionState {
            conversation: post.conversation,
            status: post.status,
            should_quit: post.should_quit,
            show_help: post.show_help,
            help_scroll_offset: post.help_scroll_offset,
            ..pre
        })
        &&& gains_no_user_message(pre.conversation@, post.conversation@)
        &&& !(e is StartRequest)
        &&& !(e is ExecuteTool)
    })
    &&& (!is_command_input(text) && pre.thinking ==> {
        &&& post == (SessionState {
            message_queue: post.message_queue,
            status: post.status,
            input_history: post.input_history,
            history_index: post.history_index,
            ..pre
        })
        &&& post.message_queue.deep_view() == pre.message_queue.deep_view().push(text)
        &&& post.status@ == queued_status(pre.message_queue@.len() as int + 1)
        &&& e is Nothing
    })
    &&& (!is_command_input(text) && !pre.thinking ==> {
        &&& post == (SessionState {
            conversation: post.conversation,
            status: post.status,
            thinking: true,
            thinking_since: now,
            cancel_token: post.cancel_token,
            input_history: post.input_history,
            history_index: post.history_index,
            ..pre
        })
        &&& post.conversation@.len() == pre.conversation@.len() + 1
        &&& post.conversation@.take(pre.conversation@.len() as int) == pre.conversation@
        &&& post.conversation@.last().role == MessageRole::User
        &&& post.conversation@.last().content@ == text
        &&& post.status@ == "Thinking..."@
        &&& post.cancel_token is Some
        &&& (e matches Effect::StartRequest { prompt } && prompt@ == crate::prompt::prompt_of(
            post.conversation@,
        ))
    })
    &&& (!is_command_input(text) ==> {
        &&& (trimmed(text).len() > 0 ==> post.input_history.deep_view()
            == pre.input_history.deep_view().push(text) && post.history_index == 0)
        &&& (trimmed(text).len() == 0 ==> post.input_history == pre.input_history
            && post.history_index == pre.history_index)
    })
}

/// One submission step, whatever effect it returned.
pub open spec fn submit_step(pre: SessionState, post: SessionState, text: Seq<char>, now: u64) -> bool {
    exists|e: Effect| submit_post(pre, post, text, now, e)
}

/// The `i`-th of a run of submissions: a non-command text that moved the
/// session from `states[i]` to `states[i + 1]`.
pub open spec fn run_step(
    states: Seq<SessionState>,
    texts: Seq<Seq<char>>,
    now: u64,
    i: int,
) -> bool {
    !is_command_input(texts[i]) && submit_step(states[i], states[i + 1], texts[i], now)
}

/// Law of the queue: texts submitted while a request is outstanding join
/// the queue one by one, in submission order.  After any number of
/// non-command submissions `texts` through the states `states`, the queue
/// holds exactly the starting queue followed by `texts`, the session is
/// still thinking, and the conversation has not moved.
pub proof fn lemma_queue_accumulates_in_order(
    states: Seq<SessionState>,
    texts: Seq<Seq<char>>,
    now: u64,
)
    requires
        states.len() == texts.len() + 1,
        states[0].thinking,
        forall|i: int| 0 <= i < texts.len() ==> #[trigger] run_step(states, texts, now, i),
    ensures
        states.last().message_queue.deep_view() == states[0].message_queue.deep_view() + texts,
        states.last().thinking,
        states.last().conversation == states[0].conversation,
    decreases texts.len(),
{
    if texts.len() == 0 {
        assert(states.last() == states[0]);
        assert(states[0].message_queue.deep_view() + texts =~= states[
            0
        ].message_queue.deep_view());
    } else {
        assert(run_step(states, texts, now, 0));
        let e = choose|e: Effect| submit_post(states[0], states[1], texts[0], now, e);
        assert(submit_post(states[0], states[1], texts[0], now, e));
        assert(states[1].thinking);
        assert(states[1].message_queue.deep_view() == states[0].message_queue.deep_view().push(
            texts[0],
        ));
        let rest_states = states.drop_first();
        let rest_texts = texts.drop_first();
        assert forall|i: int| 0 <= i < rest_texts.len() implies #[trigger] run_step(
            rest_states,
            rest_texts,
            now,
            i,
        ) by {
            assert(run_step(states, texts, now, i + 1));
            assert(rest_states[i] == states[i + 1]);
            assert(rest_states[i + 1] == states[i + 2]);
            assert(rest_texts[i] == texts[i + 1]);
        }
        lemma_queue_accumulates_in_order(rest_states, rest_texts, now);
        assert(rest_states.last() == states.last());
        assert(states.last().message_queue.deep_view() =~= states[0].message_queue.deep_view()
            + texts);
    }
}

/// What browsing the input history does to the session.
pub open spec fn nav_history_post(pre: SessionState, post: SessionState, direction: i32) -> bool {
    &&& (pre.input_history@.len() == 0 ==> post == pre)
    &&& (pre.input_history@.len() > 0 ==> {
        let len = pre.input_history@.len() as int;
        let new_index = if direction < 0 {
            if pre.history_index + 1 <= len {
                pre.history_index + 1
            } else {
                len
            }
        } else {
            if pre.history_index > 0 {
                pre.history_index - 1
            } else {
                0
            }
        };
        let original: Seq<char> = if direction < 0 && pre.history_index == 0 {
            pre.input@
        } else {
            pre.history_original@
        };
        &&& post == (SessionState {
            input: post.input,
            cursor_pos: post.cursor_pos,
            history_index: post.history_index,
            history_original: post.history_original,
            ..pre
        })
        &&& post.history_index == new_index
        &&& post.history_original@ == original
        &&& post.input@ == if new_index > 0 {
            pre.input_history@[len - new_index]@
        } else {
            original
        }
        &&& post.cursor_pos == post.input@.len()
    })
}

/// What one key does while the help overlay is open: close it, scroll it,
/// or nothing.
pub open spec fn help_key_post(pre: SessionState, post: SessionState, code: Key) -> bool {
    &&& ((code == Key::Esc || code == Key::Enter || code == Key::Char('q')) ==> post == (
    SessionState { show_help: false, ..pre }))
    &&& ((code == Key::Up || code == Key::Char('k')) ==> post == (SessionState {
        help_scroll_offset: sub0(pre.help_scroll_offset as int, 1) as usize,
        ..pre
    }))
    &&& ((code == Key::Down || code == Key::Char('j')) ==> post == (SessionState {
        help_scroll_offset: addcap(pre.help_scroll_offset as int, 1) as usize,
        ..pre
    }))
    &&& (code == Key::PageUp ==> post == (SessionState {
        help_scroll_offset: sub0(pre.help_scroll_offset as int, 10) as usize,
        ..pre
    }))
    &&& (code == Key::PageDown ==> post == (SessionState {
        help_scroll_offset: addcap(pre.help_scroll_offset as int, 10) as usize,
        ..pre
    }))
    &&& (!(code == Key::Esc || code == Key::Enter || code == Key::Char('q') || code == Key::Up
        || code == Key::Char('k') || code == Key::Down || code == Key::Char('j') || code
        == Key::PageUp || code == Key::PageDown) ==> post == pre)
}

/// What one key does to the session when no tool confirmation is pending:
/// the full keyboard routing, by focused pane.
pub open spec fn key_post(
    pre: SessionState,
    post: SessionState,
    code: Key,
    ctrl: bool,
    now: u64,
    e: Effect,
) -> bool {
    if pre.show_help {
        help_key_post(pre, post, code) && e is Nothing
    } else {
        let quit_key = ctrl && code == Key::Char('c');
        let clear_key = ctrl && code == Key::Char('k');
        &&& (code == Key::Esc ==> {
            &&& (pre.thinking ==> post == (SessionState {
                thinking: false,
                cancel_token: None,
                status: post.status,
                ..pre
            }) && post.status@ == "Request cancelled"@)
            &&& (!pre.thinking ==> post == pre)
            &&& e is Nothing
        })
        &&& (quit_key ==> post == (SessionState { should_quit: true, ..pre }) && e is Nothing)
        &&& (clear_key ==> post == (SessionState {
            conversation: post.conversation,
            status: post.status,
            ..pre
        }) && post.conversation@.len() == 0 && post.status@ == "Chat history cleared"@ && e
            is Nothing)
        &&& (code == Key::Enter && pre.focus_pane == 1 && trimmed(pre.input@).len() > 0 ==> {
            &&& post.input@.len() == 0
            &&& post.cursor_pos == 0
            &&& submit_post(
                (SessionState { input: post.input, cursor_pos: 0, ..pre }),
                post,
                pre.input@,
                now,
                e,
            )
        })
        &&& (code == Key::Enter && !(pre.focus_pane == 1 && trimmed(pre.input@).len() > 0) ==> post
            == pre && e is Nothing)
        &&& (code is Char && !quit_key && !clear_key ==> {
            &&& (pre.focus_pane == 1 ==> post == (SessionState {
                input: post.input,
                cursor_pos: (pre.cursor_pos + 1) as usize,
                input_hscroll_offset: adjusted_hscroll(
                    pre.cursor_pos + 1,
                    pre.input_hscroll_offset as int,
                ) as usize,
                ..pre
            }) && post.input@ == pre.input@.insert(pre.cursor_pos as int, code->Char_0))
            &&& (pre.focus_pane != 1 ==> post == pre)
            &&& e is Nothing
        })
        &&& (code == Key::Backspace ==> {
            &&& (pre.focus_pane == 1 && pre.cursor_pos > 0 ==> post == (SessionState {
                input: post.input,
                cursor_pos: (pre.cursor_pos - 1) as usize,
                input_hscroll_offset: adjusted_hscroll(
                    pre.cursor_pos - 1,
                    pre.input_hscroll_offset as int,
                ) as usize,
                ..pre
            }) && post.input@ == pre.input@.remove(pre.cursor_pos - 1))
            &&& (!(pre.focus_pane == 1 && pre.cursor_pos > 0) ==> post == pre)
            &&& e is Nothing
        })
        &&& (code == Key::Delete ==> {
            &&& (pre.focus_pane == 1 && pre.cursor_pos < pre.input@.len() ==> post == (
            SessionState {
                input: post.input,
                input_hscroll_offset: adjusted_hscroll(
                    pre.cursor_pos as int,
                    pre.input_hscroll_offset as int,
                ) as usize,
                ..pre
            }) && post.input@ == pre.input@.remove(pre.cursor_pos as int))
            &&& (!(pre.focus_pane == 1 && pre.cursor_pos < pre.input@.len()) ==> post == pre)
            &&& e is Nothing
        })
        &&& (code == Key::Left ==> {
            &&& (pre.focus_pane == 1 && pre.cursor_pos > 0 ==> post == (SessionState {
                cursor_pos: (pre.cursor_pos - 1) as usize,
                input_hscroll_offset: adjusted_hscroll(
                    pre.cursor_pos - 1,
                    pre.input_hscroll_offset as int,
                ) as usize,
                ..pre
            }))
            &&& (pre.focus_pane == 2 ==> post == (SessionState {
                log_hscroll_offset: sub0(pre.log_hscroll_offset as int, 1) as usize,
                ..pre
            }))
            &&& (!(pre.focus_pane == 1 && pre.cursor_pos > 0) && pre.focus_pane != 2 ==> post
                == pre)
            &&& e is Nothing
        })
        &&& (code == Key::Right ==> {
            &&& (pre.focus_pane == 1 && pre.cursor_pos < pre.input@.len() ==> post == (
            SessionState {
                cursor_pos: (pre.cursor_pos + 1) as usize,
                input_hscroll_offset: adjusted_hscroll(
                    pre.cursor_pos + 1,
                    pre.input_hscroll_offset as int,
                ) as usize,
                ..pre
            }))
            &&& (pre.focus_pane == 2 ==> post == (SessionState {
                log_hscroll_offset: addcap(pre.log_hscroll_offset as int, 1) as usize,
                ..pre
            }))
            &&& (!(pre.focus_pane == 1 && pre.cursor_pos < pre.input@.len()) && pre.focus_pane != 2
                ==> post == pre)
            &&& e is Nothing
        })
        &&& (code == Key::Home ==> {
            &&& (pre.focus_pane == 1 ==> post == (SessionState {
                cursor_pos: 0,
                input_hscroll_offset: 0,
                ..pre
            }))
            &&& (pre.focus_pane == 2 ==> post == (SessionState {
                log_hscroll_offset: 0,
                ..pre
            }))
            &&& (pre.focus_pane == 0 ==> post == pre)
            &&& e is Nothing
        })
        &&& (code == Key::End ==> {
            &&& (pre.focus_pane == 1 ==> post == (SessionState {
                cursor_pos: pre.input@.len() as usize,
                input_hscroll_offset: sub0(pre.input@.len() as int, 80) as usize,
                ..pre
            }))
            &&& (pre.focus_pane == 2 ==> post == (SessionState {
                log_hscroll_offset: usize::MAX,
                ..pre
            }))
            &&& (pre.focus_pane == 0 ==> post == pre)
            &&& e is Nothing
        })
        &&& (code == Key::Up ==> {
            &&& (pre.focus_pane == 0 ==> post == (SessionState {
                scroll_offset: addcap(pre.scroll_offset as int, 1) as usize,
                ..pre
            }))
            &&& (pre.focus_pane == 1 ==> nav_history_post(pre, post, -1 as i32))
            &&& (pre.focus_pane == 2 ==> post == (SessionState {
                log_scroll_offset: addcap(pre.log_scroll_offset as int, 1) as usize,
                ..pre
            }))
            &&& e is Nothing
        })
        &&& (code == Key::Down ==> {
            &&& (pre.focus_pane == 0 ==> post == (SessionState {
                scroll_offset: sub0(pre.scroll_offset as int, 1) as usize,
                ..pre
            }))
            &&& (pre.focus_pane == 1 ==> nav_history_post(pre, post, 1 as i32))
            &&& (pre.focus_pane == 2 ==> post == (SessionState {
                log_scroll_offset: sub0(pre.log_scroll_offset as int, 1) as usize,
                ..pre
            }))
            &&& e is Nothing
        })
        &&& (code == Key::PageUp ==> {
            &&& (pre.focus_pane == 0 ==> post == (SessionState {
                scroll_offset: addcap(pre.scroll_offset as int, 5) as usize,
                ..pre
            }))
            &&& (pre.focus_pane == 2 ==> post == (SessionState {
                log_scroll_offset: addcap(pre.log_scroll_offset as int, 5) as usize,
                ..pre
            }))
            &&& (pre.focus_pane == 1 ==> post == pre)
            &&& e is Nothing
        })
        &&& (code == Key::PageDown ==> {
            &&& (pre.focus_pane == 0 ==> post == (SessionState {
                scroll_offset: sub0(pre.scroll_offset as int, 5) as usize,
                ..pre
            }))
            &&& (pre.focus_pane == 2 ==> post == (SessionState {
                log_scroll_offset: sub0(pre.log_scroll_offset as int, 5) as usize,
                ..pre
            }))
            &&& (pre.focus_pane == 1 ==> post == pre)
            &&& e is Nothing
        })
        &&& (code == Key::Tab ==> post == (SessionState {
            focus_pane: ((pre.focus_pane + 1) % 3) as usize,
            ..pre
        }) && e is Nothing)
        &&& (code == Key::BackTab ==> post == (SessionState {
            focus_pane: ((pre.focus_pane + 2) % 3) as usize,
            ..pre
        }) && e is Nothing)
        &&& (code == Key::Other ==> post == pre && e is Nothing)
    }
}

/// What one mouse action does: a click moves focus to the pane under the
/// row; wheel and horizontal scrolling move the focused pane's offsets.
pub open spec fn mouse_post(
    pre: SessionState,
    post: SessionState,
    kind: MouseKind,
    row: u16,
    layout: PaneLayout,
) -> bool {
    &&& (kind == MouseKind::LeftDown ==> {
        &&& (layout.chat_top <= row < layout.chat_bottom ==> post == (SessionState {
            focus_pane: 0,
            ..pre
        }))
        &&& (!(layout.chat_top <= row < layout.chat_bottom) && layout.input_top <= row
            < layout.input_bottom ==> post == (SessionState { focus_pane: 1, ..pre }))
        &&& (!(layout.chat_top <= row < layout.chat_bottom) && !(layout.input_top <= row
            < layout.input_bottom) && layout.logs_top <= row < layout.logs_bottom ==> post == (
        SessionState { focus_pane: 2, ..pre }))
        &&& (!(layout.chat_top <= row < layout.chat_bottom) && !(layout.input_top <= row
            < layout.input_bottom) && !(layout.logs_top <= row < layout.logs_bottom) ==> post
            == pre)
    })
    &&& (kind == MouseKind::ScrollUp ==> {
        &&& (pre.focus_pane == 0 ==> post == (SessionState {
            scroll_offset: addcap(pre.scroll_offset as int, 3) as usize,
            ..pre
        }))
        &&& (pre.focus_pane == 2 ==> post == (SessionState {
            log_scroll_offset: addcap(pre.log_scroll_offset as int, 3) as usize,
            ..pre
        }))
        &&& (pre.focus_pane == 1 ==> post == pre)
    })
    &&& (kind == MouseKind::ScrollDown ==> {
        &&& (pre.focus_pane == 0 ==> post == (SessionState {
            scroll_offset: sub0(pre.scroll_offset as int, 3) as usize,
            ..pre
        }))
        &&& (pre.focus_pane == 2 ==> post == (SessionState {
            log_scroll_offset: sub0(pre.log_scroll_offset as int, 3) as usize,
            ..pre
        }))
        &&& (pre.focus_pane == 1 ==> post == pre)
    })
    &&& (kind == MouseKind::ScrollLeft ==> {
        &&& (pre.focus_pane == 2 ==> post == (SessionState {
            log_hscroll_offset: sub0(pre.log_hscroll_offset as int, 5) as usize,
            ..pre
        }))
        &&& (pre.focus_pane != 2 ==> post == pre)
    })
    &&& (kind == MouseKind::ScrollRight ==> {
        &&& (pre.focus_pane == 2 ==> post == (SessionState {
            log_hscroll_offset: addcap(pre.log_hscroll_offset as int, 5) as usize,
            ..pre
        }))
        &&& (pre.focus_pane != 2 ==> post == pre)
    })
    &&& (kind == MouseKind::Other ==> post == pre)
}

/// The state of one interactive session.
pub struct SessionState {
    /// Model requested from the completion provider.
    pub model_name: String,
    /// System preamble handed to the completion provider.
    pub preamble: String,
    /// The conversation, oldest message first.
    pub conversation: Vec<ChatMessage>,
    /// The input line being edited.
    pub input: Vec<char>,
    /// Caret position within `input`.
    pub cursor_pos: usize,
    /// Horizontal scroll of the input line.
    pub input_hscroll_offset: usize,
    /// The control loop should exit.
    pub should_quit: bool,
    /// Current status line.
    pub status: String,
    /// Exactly one completion request is outstanding.
    pub thinking: bool,
    /// When the outstanding request began, in caller-supplied ticks.
    pub thinking_since: u64,
    /// A proposed tool invocation awaiting approval.
    pub pending_tool_call: Option<PendingToolCall>,
    /// Texts submitted while a request was outstanding, oldest first.
    pub message_queue: Vec<String>,
    /// Cancellation token of the outstanding request.
    pub cancel_token: Option<CancellationToken>,
    /// Which pane has focus: 0 chat, 1 input, 2 logs.
    pub focus_pane: usize,
    /// Chat scroll offset, 0 meaning stuck to the bottom.
    pub scroll_offset: usize,
    /// Log pane scroll offset.
    pub log_scroll_offset: usize,
    /// Log pane horizontal scroll offset.
    pub log_hscroll_offset: usize,
    /// The help overlay is open.
    pub show_help: bool,
    /// Scroll offset of the help overlay.
    pub help_scroll_offset: usize,
    /// Terminal mouse capture is on.
    pub mouse_enabled: bool,
    /// Previously submitted inputs, oldest first.
    pub input_history: Vec<String>,
    /// How far back the user has browsed the input history; 0 means not
    /// browsing.
    pub history_index: usize,
    /// The input line as it was before browsing the history.
    pub history_original: Vec<char>,
    /// The session's local view of the log stream.
    pub log_view: LogView,
    /// Configured tool servers.
    pub mcp_servers: Vec<McpServerConfig>,
    /// Names of the tool servers that connected.
    pub mcp_connected: Vec<String>,
    /// A tool server handle exists, so tool definitions can be fetched.
    pub tool_server_available: bool,
}

impl SessionState {
    /// The session's structural invariant: focus names a real pane, the
    /// caret stays inside the input, exactly one cancellation token exists
    /// per outstanding request, a proposed tool call only waits between
    /// requests, every queued text is a real submission (never a local
    /// command), and history browsing stays in range.
    ///
    /// One stated invariant of the design is deliberately not part of this:
    /// "the queue is non-empty only while thinking".  `cancel` keeps the
    /// queued texts while clearing `thinking`, so they are not lost; they
    /// flush with the next request's response.  Emptying the queue on
    /// cancel would silently drop the user's texts, and resubmitting them
    /// would contradict cancellation being status-only, so the invariant
    /// holds everywhere except between a cancellation and the next
    /// submission.
    pub open spec fn wf(self) -> bool {
        &&& self.focus_pane < 3
        &&& self.cursor_pos <= self.input@.len()
        &&& (self.thinking <==> self.cancel_token is Some)
        &&& (self.pending_tool_call is Some ==> !self.thinking)
        &&& (forall|i: int|
            0 <= i < self.message_queue@.len() ==> !is_command_input(
                #[trigger] self.message_queue@[i]@,
            ))
        &&& self.history_index <= self.input_history@.len()
        &&& self.log_view.wf()
    }

    /// A fresh idle session over the given configuration.
    pub fn new(config: Config) -> (s: SessionState)
        ensures
            s.wf(),
            s.model_name == config.model,
            s.conversation@.len() == 0,
            s.input@.len() == 0,
            s.cursor_pos == 0,
            !s.should_quit,
            s.status@ == "Ready"@,
            !s.thinking,
            s.pending_tool_call is None,
            s.message_queue@.len() == 0,
            s.cancel_token is None,
            s.focus_pane == 1,
            s.scroll_offset == 0,
            s.log_scroll_offset == 0,
            s.log_hscroll_offset == 0,
            !s.show_help,
            s.help_scroll_offset == 0,
            !s.mouse_enabled,
            s.input_history@.len() == 0,
            s.history_index == 0,
            s.log_view.lines@.len() == 0,
            s.log_view.seen_upto == 0,
            s.log_view.max_lines == 100,
            s.mcp_servers == config.mcp_servers,
            s.mcp_connected@.len() == 0,
            !s.tool_server_available,
    {
        SessionState {
            model_name: config.model,
            preamble: crate::prompt::default_preamble(),
            conversation: Vec::new(),
            input: Vec::new(),
            cursor_pos: 0,
            input_hscroll_offset: 0,
            should_quit: false,
            status: "Ready".to_owned(),
            thinking: false,
            thinking_since: 0,
            pending_tool_call: None,
            message_queue: Vec::new(),
            cancel_token: None,
            focus_pane: 1,
            scroll_offset: 0,
            log_scroll_offset: 0,
            log_hscroll_offset: 0,
            show_help: false,
            help_scroll_offset: 0,
            mouse_enabled: false,
            input_history: Vec::new(),
            history_index: 0,
            history_original: Vec::new(),
            log_view: LogView::new(100),
            mcp_servers: config.mcp_servers,
            mcp_connected: Vec::new(),
            tool_server_available: false,
        }
    }

    /// Cancel the outstanding request, if any.  With no request in flight
    /// this is a no-op: no state changes and no token is created or
    /// destroyed.  With one in flight, its token is signalled (cancellation
    /// is cooperative: the task observes the signal at its race point), the
    /// session stops thinking, and the status reports the cancellation.
    pub fn cancel(&mut self)
        requires
            old(self).wf(),
        ensures
            final(self).wf(),
            old(self).cancel_token is None ==> *final(self) == *old(self),
            old(self).cancel_token is Some ==> {
                &&& *final(self) == (SessionState {
                    thinking: false,
                    cancel_token: None,
                    status: final(self).status,
                    ..*old(self)
                })
                &&& final(self).status@ == "Request cancelled"@
            },
    {
        if self.cancel_token.is_some() {
            if let Some(token) = &self.cancel_token {
                signal_cancellation(token);
            }
            self.cancel_token = None;
            self.thinking = false;
            self.status = "Request cancelled".to_owned();
        }
    }

    /// Stick every pane back to its bottom; called when a new message
    /// arrives.
    pub fn reset_scroll(&mut self)
        ensures
            *final(self) == (SessionState {
                scroll_offset: 0,
                log_scroll_offset: 0,
                log_hscroll_offset: 0,
                ..*old(self)
            }),
    {
        self.scroll_offset = 0;
        self.log_scroll_offset = 0;
        self.reset_log_hscroll();
    }

    /// Scroll the log pane back to the start of its lines.
    pub fn reset_log_hscroll(&mut self)
        ensures
            *final(self) == (SessionState { log_hscroll_offset: 0, ..*old(self) }),
    {
        self.log_hscroll_offset = 0;
    }

    /// Keep the caret visible: scroll left when it moved before the window,
    /// right when it moved past it.
    pub fn adjust_input_scroll(&mut self)
        ensures
            *final(self) == (SessionState {
                input_hscroll_offset: final(self).input_hscroll_offset,
                ..*old(self)
            }),
            final(self).input_hscroll_offset == adjusted_hscroll(
                old(self).cursor_pos as int,
                old(self).input_hscroll_offset as int,
            ),
    {
        if self.cursor_pos < self.input_hscroll_offset {
            self.input_hscroll_offset = self.cursor_pos;
        } else if self.cursor_pos - self.input_hscroll_offset >= 80 {
            self.input_hscroll_offset = self.cursor_pos - 79;
        }
    }

    /// Browse the input history like a shell: negative direction moves to
    /// older entries, positive back toward the line being edited, which is
    /// restored when the browse returns to the present.
    pub fn navigate_history(&mut self, direction: i32)
        requires
            old(self).wf(),
        ensures
            final(self).wf(),
            nav_history_post(*old(self), *final(self), direction),
    {
        if self.input_history.len() == 0 {
            return ;
        }
        if direction < 0 {
            if self.history_index == 0 {
                self.history_original = crate::text::clone_chars(&self.input);
            }
            if self.history_index < self.input_history.len() {
                self.history_index = self.history_index + 1;
            } else {
                self.history_index = self.input_history.len();
            }
        } else {
            if self.history_index > 0 {
                self.history_index = self.history_index - 1;
            }
        }
        if self.history_index > 0 {
            let idx = self.input_history.len() - self.history_index;
            self.input = chars_of(self.input_history[idx].as_str());
        } else {
            self.input = crate::text::clone_chars(&self.history_original);
        }
        self.cursor_pos = self.input.len();
    }

    /// Append one conversation message.
    fn push_message(&mut self, role: MessageRole, content: String)
        ensures
            *final(self) == (SessionState { conversation: final(self).conversation, ..*old(self) }),
            final(self).conversation@ == old(self).conversation@.push(
                (ChatMessage { role: role, content: content }),
            ),
            !(role is User) ==> gains_no_user_message(
                old(self).conversation@,
                final(self).conversation@,
            ),
    {
        self.conversation.push(ChatMessage { role, content });
        proof {
            if !(role is User) {
                lemma_push_non_user_gains_none(
                    old(self).conversation@,
                    (ChatMessage { role: role, content: content }),
                );
            }
        }
    }

    /// Append a User message to the conversation.
    pub fn add_user_message(&mut self, content: String)
        ensures
            *final(self) == (SessionState { conversation: final(self).conversation, ..*old(self) }),
            final(self).conversation@ == old(self).conversation@.push(
                (ChatMessage { role: MessageRole::User, content: content }),
            ),
    {
        self.push_message(MessageRole::User, content);
    }

    /// Append an Assistant message to the conversation.
    pub fn add_assistant_message(&mut self, content: String)
        ensures
            *final(self) == (SessionState { conversation: final(self).conversation, ..*old(self) }),
            final(self).conversation@ == old(self).conversation@.push(
                (ChatMessage { role: MessageRole::Assistant, content: content }),
            ),
    {
        self.push_message(MessageRole::Assistant, content);
    }

    /// Append a ToolResult message to the conversation.
    pub fn add_tool_result(&mut self, result: String)
        ensures
            *final(self) == (SessionState { conversation: final(self).conversation, ..*old(self) }),
            final(self).conversation@ == old(self).conversation@.push(
                (ChatMessage { role: MessageRole::ToolResult, content: result }),
            ),
    {
        self.push_message(MessageRole::ToolResult, result);
    }

    /// Forget the whole conversation.
    pub fn clear_history(&mut self)
        ensures
            *final(self) == (SessionState { conversation: final(self).conversation, ..*old(self) }),
            final(self).conversation@.len() == 0,
    {
        self.conversation.clear();
    }

    /// The tool-server status answer, over the current configuration.
    fn mcp_status_message(&self) -> (msg: String)
        ensures
            msg@ == mcp_status_text(
                self.mcp_servers@.len() as int,
                self.mcp_servers@.filter(|m: McpServerConfig| m.enabled).len() as int,
                self.mcp_connected@,
            ),
    {
        let total = self.mcp_servers.len();
        let enabled = crate::config::count_enabled(&self.mcp_servers);
        let mut msg = "MCP Configuration:\n  Configured servers: ".to_owned();
        crate::text::append_count(&mut msg, total);
        msg.append("\n  Enabled: ");
        crate::text::append_count(&mut msg, enabled);
        msg.append("\n  Connected: ");
        crate::text::append_count(&mut msg, self.mcp_connected.len());
        msg.append("\n\n");
        proof {
            assert(msg@ =~= mcp_header_text(
                total as int,
                enabled as int,
                self.mcp_connected@.len() as int,
            ));
        }
        let ghost header = msg@;
        if self.mcp_connected.len() > 0 {
            msg.append("Connected servers:\n");
            let ghost base = msg@;
            let n = self.mcp_connected.len();
            let mut i: usize = 0;
            proof {
                assert(connected_rows(self.mcp_connected@.take(0)) =~= Seq::<char>::empty());
                assert(msg@ =~= base + connected_rows(self.mcp_connected@.take(0)));
            }
            while i < n
                invariant
                    0 <= i <= n,
                    n == self.mcp_connected@.len(),
                    msg@ == base + connected_rows(self.mcp_connected@.take(i as int)),
                decreases n - i,
            {
                msg.append("  \u{2713} ");
                msg.append(self.mcp_connected[i].as_str());
                msg.append("\n");
                proof {
                    assert(self.mcp_connected@.take(i + 1).drop_last() =~= self.mcp_connected@.take(
                        i as int,
                    ));
                    assert(msg@ =~= base + connected_rows(self.mcp_connected@.take(i + 1)));
                }
                i = i + 1;
            }
            proof {
                assert(self.mcp_connected@.take(n as int) =~= self.mcp_connected@);
            }
        }
        if total > 0 {
            msg.append(
                "\nCommands:\n  /mcp list     - List all configured servers\n  /mcp tools    - Show available MCP tools\n  /mcp add <name> <url> - Add a new server\n",
            );
        } else {
            msg.append(
                "\nNo MCP servers configured.\nAdd servers by editing ~/.config/pcli2-rig/config.toml\n",
            );
        }
        proof {
            assert(msg@ =~= mcp_status_text(
                total as int,
                enabled as int,
                self.mcp_connected@,
            ));
        }
        msg
    }

    /// The answer listing the configured servers.
    fn mcp_list_message(&self) -> (msg: String)
        ensures
            msg@ == mcp_list_text(self.mcp_servers@),
    {
        let mut msg = "Configured MCP servers:\n".to_owned();
        let ghost base = msg@;
        let n = self.mcp_servers.len();
        let mut i: usize = 0;
        proof {
            assert(server_rows(self.mcp_servers@.take(0)) =~= Seq::<char>::empty());
            assert(msg@ =~= base + server_rows(self.mcp_servers@.take(0)));
        }
        while i < n
            invariant
                0 <= i <= n,
                n == self.mcp_servers@.len(),
                msg@ == base + server_rows(self.mcp_servers@.take(i as int)),
            decreases n - i,
        {
            msg.append("  ");
            if self.mcp_servers[i].enabled {
                msg.append("\u{2713}");
            } else {
                msg.append("\u{2717}");
            }
            msg.append(" ");
            msg.append(self.mcp_servers[i].name.as_str());
            msg.append(" (");
            msg.append(self.mcp_servers[i].url.as_str());
            msg.append(")\n");
            proof {
                assert(self.mcp_servers@.take(i + 1).drop_last() =~= self.mcp_servers@.take(
                    i as int,
                ));
                assert(msg@ =~= base + server_rows(self.mcp_servers@.take(i + 1)));
            }
            i = i + 1;
        }
        proof {
            assert(self.mcp_servers@.take(n as int) =~= self.mcp_servers@);
        }
        msg
    }

    /// Handle the tool-server subcommands: show status, list servers, list
    /// tools (fetched by the surrounding process), or explain how to add a
    /// server.
    pub fn handle_mcp_command(&mut self, args: &Vec<String>) -> (e: Effect)
        requires
            old(self).wf(),
        ensures
            final(self).wf(),
            *final(self) == (SessionState { conversation: final(self).conversation, ..*old(self) }),
            gains_no_user_message(old(self).conversation@, final(self).conversation@),
            mcp_command_post(*old(self), *final(self), args.deep_view(), e),
    {
        proof {
            reveal_strlit("list");
            reveal_strlit("tools");
            reveal_strlit("add");
            if args@.len() > 0 {
                assert(args.deep_view()[0] == args@[0]@);
            }
            if args@.len() >= 3 {
                assert(args.deep_view()[1] == args@[1]@);
                assert(args.deep_view()[2] == args@[2]@);
            }
        }
        if args.len() == 0 {
            let msg = self.mcp_status_message();
            self.push_message(MessageRole::Assistant, msg);
            return Effect::Nothing;
        }
        if str_eq(args[0].as_str(), "list") {
            let msg = self.mcp_list_message();
            self.push_message(MessageRole::Assistant, msg);
            Effect::Nothing
        } else if str_eq(args[0].as_str(), "tools") {
            if self.tool_server_available {
                proof {
                    lemma_same_conversation_gains_none(
                        old(self).conversation@,
                        self.conversation@,
                    );
                }
                Effect::FetchToolDefs
            } else {
                self.push_message(
                    MessageRole::Assistant,
                    "No MCP server connected. Configure with --setup-mcp or --mcp-remote.".to_owned(),
                );
                Effect::Nothing
            }
        } else if str_eq(args[0].as_str(), "add") {
            if args.len() < 3 {
                self.push_message(
                    MessageRole::Assistant,
                    "Usage: /mcp add <name> <url>".to_owned(),
                );
            } else {
                let mut msg = "To add MCP server '".to_owned();
                msg.append(args[1].as_str());
                msg.append(
                    "', edit ~/.config/pcli2-rig/config.toml\nAdd this section:\n[[mcp_servers]]\nname = \"",
                );
                msg.append(args[1].as_str());
                msg.append("\"\nurl = \"");
                msg.append(args[2].as_str());
                msg.append("\"\nenabled = true");
                proof {
                    assert(msg@ =~= mcp_add_text(args@[1]@, args@[2]@));
                }
                self.push_message(MessageRole::Assistant, msg);
            }
            Effect::Nothing
        } else {
            let mut msg = "Unknown MCP command: ".to_owned();
            msg.append(args[0].as_str());
            msg.append(". Type /mcp for help.");
            proof {
                assert(msg@ =~= unknown_mcp_text(args@[0]@));
            }
            self.push_message(MessageRole::Assistant, msg);
            Effect::Nothing
        }
    }

    /// Submit one input text.  A command-marker text is interpreted locally
    /// and never reaches the model.  Otherwise, while a request is
    /// outstanding the text joins the queue, in submission order; otherwise
    /// it becomes a User message and exactly one request starts: the session
    /// stamps its thinking clock with `now`, creates a fresh cancellation
    /// token, and returns the prompt for the request task, built from a
    /// snapshot of the conversation.
    pub fn submit(&mut self, text: String, now: u64) -> (e: Effect)
        requires
            old(self).wf(),
            // Confirmation happens between requests: no submission is
            // routed while a proposed tool call awaits approval (the modal
            // capture in `handle_event` swallows such input).
            old(self).pending_tool_call is None,
        ensures
            final(self).wf(),
            submit_post(*old(self), *final(self), text@, now, e),
    {
        let t = trim_str(text.as_str());
        if starts_with_char(t.as_str(), '/') {
            return self.handle_command(text.as_str());
        }
        if t.as_str().unicode_len() > 0 {
            self.input_history.push(text.clone());
            self.history_index = 0;
        }
        proof {
            if trimmed(text@).len() > 0 {
                assert(self.input_history.deep_view() =~= old(
                    self,
                ).input_history.deep_view().push(text@));
            }
        }
        if self.thinking {
            self.message_queue.push(text);
            proof {
                assert(self.message_queue.deep_view() =~= old(
                    self,
                ).message_queue.deep_view().push(text@));
            }
            let n = self.message_queue.len();
            self.status = queued_status_string(n as u64);
            return Effect::Nothing;
        }
        self.add_user_message(text);
        proof {
            assert(self.conversation@.take(old(self).conversation@.len() as int) =~= old(
                self,
            ).conversation@);
        }
        self.status = "Thinking...".to_owned();
        self.thinking = true;
        self.thinking_since = now;
        self.cancel_token = Some(new_cancellation_token());
        let prompt = crate::prompt::build_prompt(&self.conversation);
        Effect::StartRequest { prompt }
    }

    /// Take delivery of a finished request's outcome: stop thinking, drop
    /// the token, surface the response (or its error, cleaned) in the
    /// conversation and the status line, stick every pane back to its
    /// bottom, and flush any queued texts as exactly one combined
    /// resubmission, joined by blank lines.
    pub fn on_response(&mut self, result: Result<String, String>, now: u64) -> (e: Effect)
        requires
            old(self).wf(),
        ensures
            final(self).wf(),
            !old(self).thinking ==> *final(self) == *old(self) && e is Nothing,
            old(self).thinking && old(self).message_queue@.len() == 0 ==> {
                &&& *final(self) == (SessionState {
                    conversation: final(self).conversation,
                    status: final(self).status,
                    thinking: false,
                    cancel_token: None,
                    scroll_offset: 0,
                    log_scroll_offset: 0,
                    log_hscroll_offset: 0,
                    ..*old(self)
                })
                &&& final(self).conversation@.len() == old(self).conversation@.len() + 1
                &&& final(self).conversation@.take(old(self).conversation@.len() as int) == old(
                    self,
                ).conversation@
                &&& final(self).conversation@.last().role == MessageRole::Assistant
                &&& final(self).conversation@.last().content@ == response_message_text(result)
                &&& final(self).status@ == response_status(result)
                &&& e is Nothing
            },
            old(self).thinking && old(self).message_queue@.len() > 0 ==> {
                let combined = crate::text::joined_with(old(self).message_queue.deep_view(), "\n\n"@);
                &&& *final(self) == (SessionState {
                    conversation: final(self).conversation,
                    status: final(self).status,
                    thinking: final(self).thinking,
                    thinking_since: final(self).thinking_since,
                    cancel_token: final(self).cancel_token,
                    message_queue: final(self).message_queue,
                    input_history: final(self).input_history,
                    history_index: final(self).history_index,
                    should_quit: final(self).should_quit,
                    show_help: final(self).show_help,
                    help_scroll_offset: final(self).help_scroll_offset,
                    scroll_offset: 0,
                    log_scroll_offset: 0,
                    log_hscroll_offset: 0,
                    ..*old(self)
                })
                &&& final(self).message_queue@.len() == 0
                &&& final(self).thinking
                &&& final(self).thinking_since == now
                &&& final(self).cancel_token is Some
                &&& final(self).status@ == "Thinking..."@
                &&& final(self).conversation@.len() == old(self).conversation@.len() + 2
                &&& final(self).conversation@.take(old(self).conversation@.len() as int) == old(
                    self,
                ).conversation@
                &&& final(self).conversation@[old(self).conversation@.len() as int].role
                    == MessageRole::Assistant
                &&& final(self).conversation@[old(self).conversation@.len() as int].content@
                    == response_message_text(result)
                &&& final(self).conversation@.last().role == MessageRole::User
                &&& final(self).conversation@.last().content@ == combined
                &&& (e matches Effect::StartRequest { prompt } && prompt@
                    == crate::prompt::prompt_of(final(self).conversation@))
            },
    {
        if !self.thinking {
            // A response landing after a cancellation is stale: exactly one
            // of completion, timeout and cancellation determines a
            // request's outcome, and cancellation already did.  In
            // particular a user-initiated cancellation stays status-only:
            // no error message enters the conversation.
            return Effect::Nothing;
        }
        match result {
            Ok(response) => {
                self.thinking = false;
                self.cancel_token = None;
                let rt = trim_str(response.as_str());
                if rt.as_str().unicode_len() == 0 {
                    self.status = "\u{26a0} Empty response from model".to_owned();
                    self.push_message(
                        MessageRole::Assistant,
                        "\u{26a0} The model returned an empty response. This may indicate a problem with the model or the request.".to_owned(),
                    );
                } else {
                    self.status = "\u{2713} Ready".to_owned();
                    self.push_message(MessageRole::Assistant, response);
                }
            },
            Err(err) => {
                self.thinking = false;
                self.cancel_token = None;
                let clean = clean_error(err.as_str());
                let mut st = "\u{2717} Error: ".to_owned();
                st.append(clean.as_str());
                self.status = st;
                let mut msg = "\u{26a0} **Error:** ".to_owned();
                msg.append(clean.as_str());
                self.push_message(MessageRole::Assistant, msg);
            },
        }
        self.reset_scroll();
        let ghost mid_conv = self.conversation@;
        proof {
            assert(mid_conv.take(old(self).conversation@.len() as int) =~= old(
                self,
            ).conversation@);
        }
        if self.message_queue.len() > 0 {
            let combined = crate::text::join_strings(&self.message_queue, "\n\n");
            proof {
                reveal_strlit("\n\n");
                assert(forall|j: int|
                    0 <= j < "\n\n"@.len() ==> is_space_char(#[trigger] "\n\n"@[j]));
                lemma_joined_texts_not_command(self.message_queue.deep_view(), "\n\n"@);
                assert(!is_command_input(combined@));
            }
            self.message_queue = Vec::new();
            let e = self.submit(combined, now);
            proof {
                assert(self.conversation@.take(old(self).conversation@.len() as int) =~= old(
                    self,
                ).conversation@);
                assert(self.conversation@[old(self).conversation@.len() as int]
                    == mid_conv.last());
            }
            return e;
        }
        Effect::Nothing
    }

    /// Route one key press: edit the input line, move focus, scroll a
    /// pane, browse the input history, drive the help overlay, submit the
    /// input line, clear the conversation, cancel the outstanding request,
    /// or ask to quit.
    #[verifier::rlimit(80)]
    pub fn handle_key_event(&mut self, code: Key, ctrl: bool, now: u64) -> (e: Effect)
        requires
            old(self).wf(),
            // Keyboard routing is the not-pending half of `handle_event`:
            // while a proposed tool call awaits approval, the modal capture
            // there swallows every key before it could reach this routing.
            old(self).pending_tool_call is None,
        ensures
            final(self).wf(),
            key_post(*old(self), *final(self), code, ctrl, now, e),
    {
        if self.show_help {
            match code {
                Key::Esc | Key::Enter | Key::Char('q') => {
                    self.show_help = false;
                },
                Key::Up | Key::Char('k') => {
                    self.help_scroll_offset = crate::text::sat_sub(self.help_scroll_offset, 1);
                },
                Key::Down | Key::Char('j') => {
                    self.help_scroll_offset = crate::text::sat_add(self.help_scroll_offset, 1);
                },
                Key::PageUp => {
                    self.help_scroll_offset = crate::text::sat_sub(self.help_scroll_offset, 10);
                },
                Key::PageDown => {
                    self.help_scroll_offset = crate::text::sat_add(self.help_scroll_offset, 10);
                },
                _ => {},
            }
            return Effect::Nothing;
        }
        match code {
            Key::Esc => {
                if self.thinking {
                    self.cancel();
                }
                Effect::Nothing
            },
            Key::Char('c') if ctrl => {
                self.should_quit = true;
                Effect::Nothing
            },
            Key::Char('k') if ctrl => {
                self.clear_history();
                self.status = "Chat history cleared".to_owned();
                Effect::Nothing
            },
            Key::Enter => {
                if self.focus_pane == 1 {
                    let text = crate::trusted::string_from_chars(&self.input);
                    let t = trim_str(text.as_str());
                    if t.as_str().unicode_len() > 0 {
                        self.input = Vec::new();
                        self.cursor_pos = 0;
                        return self.submit(text, now);
                    }
                }
                Effect::Nothing
            },
            Key::Char(c) => {
                if self.focus_pane == 1 {
                    self.input.insert(self.cursor_pos, c);
                    let filled = self.input.len();
                    proof {
                        assert(self.cursor_pos < filled);
                    }
                    self.cursor_pos = self.cursor_pos + 1;
                    self.adjust_input_scroll();
                }
                Effect::Nothing
            },
            Key::Backspace => {
                if self.focus_pane == 1 && self.cursor_pos > 0 {
                    self.input.remove(self.cursor_pos - 1);
                    self.cursor_pos = self.cursor_pos - 1;
                    self.adjust_input_scroll();
                }
                Effect::Nothing
            },
            Key::Delete => {
                if self.focus_pane == 1 && self.cursor_pos < self.input.len() {
                    self.input.remove(self.cursor_pos);
                    self.adjust_input_scroll();
                }
                Effect::Nothing
            },
            Key::Left => {
                if self.focus_pane == 1 && self.cursor_pos > 0 {
                    self.cursor_pos = self.cursor_pos - 1;
                    self.adjust_input_scroll();
                } else if self.focus_pane == 2 {
                    self.log_hscroll_offset = crate::text::sat_sub(self.log_hscroll_offset, 1);
                }
                Effect::Nothing
            },
            Key::Right => {
                if self.focus_pane == 1 && self.cursor_pos < self.input.len() {
                    self.cursor_pos = self.cursor_pos + 1;
                    self.adjust_input_scroll();
                } else if self.focus_pane == 2 {
                    self.log_hscroll_offset = crate::text::sat_add(self.log_hscroll_offset, 1);
                }
                Effect::Nothing
            },
            Key::Home => {
                if self.focus_pane == 1 {
                    self.cursor_pos = 0;
                    self.input_hscroll_offset = 0;
                } else if self.focus_pane == 2 {
                    self.log_hscroll_offset = 0;
                }
                Effect::Nothing
            },
            Key::End => {
                if self.focus_pane == 1 {
                    self.cursor_pos = self.input.len();
                    self.input_hscroll_offset = crate::text::sat_sub(self.input.len(), 80);
                } else if self.focus_pane == 2 {
                    self.log_hscroll_offset = usize::MAX;
                }
                Effect::Nothing
            },
            Key::Up => {
                if self.focus_pane == 0 {
                    self.scroll_offset = crate::text::sat_add(self.scroll_offset, 1);
                } else if self.focus_pane == 1 {
                    self.navigate_history(-1);
                } else if self.focus_pane == 2 {
                    self.log_scroll_offset = crate::text::sat_add(self.log_scroll_offset, 1);
                }
                Effect::Nothing
            },
            Key::Down => {
                if self.focus_pane == 0 {
                    self.scroll_offset = crate::text::sat_sub(self.scroll_offset, 1);
                } else if self.focus_pane == 1 {
                    self.navigate_history(1);
                } else if self.focus_pane == 2 {
                    self.log_scroll_offset = crate::text::sat_sub(self.log_scroll_offset, 1);
                }
                Effect::Nothing
            },
            Key::PageUp => {
                if self.focus_pane == 0 {
                    self.scroll_offset = crate::text::sat_add(self.scroll_offset, 5);
                } else if self.focus_pane == 2 {
                    self.log_scroll_offset = crate::text::sat_add(self.log_scroll_offset, 5);
                }
                Effect::Nothing
            },
            Key::PageDown => {
                if self.focus_pane == 0 {
                    self.scroll_offset = crate::text::sat_sub(self.scroll_offset, 5);
                } else if self.focus_pane == 2 {
                    self.log_scroll_offset = crate::text::sat_sub(self.log_scroll_offset, 5);
                }
                Effect::Nothing
            },
            Key::Tab => {
                self.focus_pane = (self.focus_pane + 1) % 3;
                Effect::Nothing
            },
            Key::BackTab => {
                self.focus_pane = (self.focus_pane + 2) % 3;
                Effect::Nothing
            },
            Key::Other => Effect::Nothing,
        }
    }

    /// Route one mouse action: click to focus, wheel to scroll.
    pub fn handle_mouse(&mut self, kind: MouseKind, row: u16, layout: PaneLayout)
        requires
            old(self).wf(),
        ensures
            final(self).wf(),
            mouse_post(*old(self), *final(self), kind, row, layout),
    {
        match kind {
            MouseKind::LeftDown => {
                if layout.chat_top <= row && row < layout.chat_bottom {
                    self.focus_pane = 0;
                } else if layout.input_top <= row && row < layout.input_bottom {
                    self.focus_pane = 1;
                } else if layout.logs_top <= row && row < layout.logs_bottom {
                    self.focus_pane = 2;
                }
            },
            MouseKind::ScrollUp => {
                if self.focus_pane == 0 {
                    self.scroll_offset = crate::text::sat_add(self.scroll_offset, 3);
                } else if self.focus_pane == 2 {
                    self.log_scroll_offset = crate::text::sat_add(self.log_scroll_offset, 3);
                }
            },
            MouseKind::ScrollDown => {
                if self.focus_pane == 0 {
                    self.scroll_offset = crate::text::sat_sub(self.scroll_offset, 3);
                } else if self.focus_pane == 2 {
                    self.log_scroll_offset = crate::text::sat_sub(self.log_scroll_offset, 3);
                }
            },
            MouseKind::ScrollLeft => {
                if self.focus_pane == 2 {
                    self.log_hscroll_offset = crate::text::sat_sub(self.log_hscroll_offset, 5);
                }
            },
            MouseKind::ScrollRight => {
                if self.focus_pane == 2 {
                    self.log_hscroll_offset = crate::text::sat_add(self.log_hscroll_offset, 5);
                }
            },
            MouseKind::Other => {},
        }
    }

    /// Route one input event.  While a tool confirmation is pending, only
    /// the confirm and cancel keys are processed and every other event is
    /// swallowed without any state change: strict modal capture.
    /// Otherwise keys go to the keyboard routing (with the mouse-capture
    /// toggle intercepted) and mouse events, when capture is on, to the
    /// mouse routing.
    pub fn handle_event(&mut self, ev: Event, layout: PaneLayout, now: u64) -> (e: Effect)
        requires
            old(self).wf(),
        ensures
            final(self).wf(),
            old(self).pending_tool_call is Some ==> {
                let confirm = ev matches Event::Key { code, ctrl } && (code == Key::Char('y')
                    || code == Key::Char('Y') || code == Key::Enter);
                let deny = ev matches Event::Key { code, ctrl } && (code == Key::Char('n') || code
                    == Key::Char('N') || code == Key::Esc);
                &&& (confirm ==> {
                    &&& *final(self) == (SessionState {
                        pending_tool_call: None,
                        status: final(self).status,
                        ..*old(self)
                    })
                    &&& final(self).status@ == "Executing "@ + old(
                        self,
                    ).pending_tool_call.unwrap().tool_name@ + "..."@
                    &&& (e matches Effect::ExecuteTool { tool_name, arguments } && tool_name == old(
                        self,
                    ).pending_tool_call.unwrap().tool_name && arguments == old(
                        self,
                    ).pending_tool_call.unwrap().arguments)
                })
                &&& (deny ==> {
                    &&& *final(self) == (SessionState {
                        pending_tool_call: None,
                        status: final(self).status,
                        ..*old(self)
                    })
                    &&& final(self).status@ == "Tool execution cancelled"@
                    &&& e is Nothing
                })
                &&& (!confirm && !deny ==> *final(self) == *old(self) && e is Nothing)
            },
            old(self).pending_tool_call is None ==> {
                &&& (ev matches Event::Key { code, ctrl } ==> {
                    &&& (ctrl && code == Key::Char('m') ==> {
                        &&& (old(self).mouse_enabled ==> *final(self) == (SessionState {
                            mouse_enabled: false,
                            status: final(self).status,
                            ..*old(self)
                        }) && final(self).status@ == "Mouse disabled (text selection enabled)"@
                            && e is DisableMouseCapture)
                        &&& (!old(self).mouse_enabled ==> *final(self) == (SessionState {
                            mouse_enabled: true,
                            status: final(self).status,
                            ..*old(self)
                        }) && final(self).status@ == "Mouse enabled (click/scroll enabled)"@ && e
                            is EnableMouseCapture)
                    })
                    &&& (!(ctrl && code == Key::Char('m')) ==> key_post(
                        *old(self),
                        *final(self),
                        code,
                        ctrl,
                        now,
                        e,
                    ))
                })
                &&& (ev matches Event::Mouse { kind, row } ==> {
                    &&& (old(self).mouse_enabled ==> mouse_post(
                        *old(self),
                        *final(self),
                        kind,
                        row,
                        layout,
                    ))
                    &&& (!old(self).mouse_enabled ==> *final(self) == *old(self))
                    &&& e is Nothing
                })
                &&& (ev is Resize || ev is Other ==> *final(self) == *old(self) && e is Nothing)
            },
    {
        if self.pending_tool_call.is_some() {
            if let Event::Key { code, ctrl } = ev {
                match code {
                    Key::Char('y') | Key::Char('Y') | Key::Enter => {
                        return self.confirm_pending_tool();
                    },
                    Key::Char('n') | Key::Char('N') | Key::Esc => {
                        self.pending_tool_call = None;
                        self.status = "Tool execution cancelled".to_owned();
                        return Effect::Nothing;
                    },
                    _ => {
                        return Effect::Nothing;
                    },
                }
            }
            return Effect::Nothing;
        }
        match ev {
            Event::Key { code, ctrl } => {
                if ctrl && code == Key::Char('m') {
                    if self.mouse_enabled {
                        self.mouse_enabled = false;
                        self.status = "Mouse disabled (text selection enabled)".to_owned();
                        Effect::DisableMouseCapture
                    } else {
                        self.mouse_enabled = true;
                        self.status = "Mouse enabled (click/scroll enabled)".to_owned();
                        Effect::EnableMouseCapture
                    }
                } else {
                    self.handle_key_event(code, ctrl, now)
                }
            },
            Event::Mouse { kind, row } => {
                if self.mouse_enabled {
                    self.handle_mouse(kind, row, layout);
                }
                Effect::Nothing
            },
            Event::Resize => Effect::Nothing,
            Event::Other => Effect::Nothing,
        }
    }

    /// Record a tool invocation proposed by a completion result (or an
    /// outside tool-call proposal): confirmation is now awaited, and every
    /// input except a confirm or cancel key is swallowed.  Confirmation
    /// happens between requests.
    pub fn propose_tool_call(&mut self, call: PendingToolCall)
        requires
            old(self).wf(),
            !old(self).thinking,
        ensures
            final(self).wf(),
            *final(self) == (SessionState {
                pending_tool_call: final(self).pending_tool_call,
                ..*old(self)
            }),
            final(self).pending_tool_call == Some(call),
    {
        self.pending_tool_call = Some(call);
    }

    /// Approve the pending tool call: it is taken out, the status names
    /// the running tool, and the surrounding process is told to execute it.
    fn confirm_pending_tool(&mut self) -> (e: Effect)
        requires
            old(self).wf(),
            old(self).pending_tool_call is Some,
        ensures
            final(self).wf(),
            *final(self) == (SessionState {
                pending_tool_call: None,
                status: final(self).status,
                ..*old(self)
            }),
            final(self).status@ == "Executing "@
                + old(self).pending_tool_call.unwrap().tool_name@ + "..."@,
            (e matches Effect::ExecuteTool { tool_name, arguments } && tool_name == old(
                self,
            ).pending_tool_call.unwrap().tool_name && arguments == old(
                self,
            ).pending_tool_call.unwrap().arguments),
    {
        let pending = self.pending_tool_call.take().unwrap();
        let mut st = "Executing ".to_owned();
        st.append(pending.tool_name.as_str());
        st.append("...");
        self.status = st;
        Effect::ExecuteTool { tool_name: pending.tool_name, arguments: pending.arguments }
    }

    /// Take delivery of an executed tool's outcome.  Success appends the
    /// output as a ToolResult message and feeds a follow-up prompt
    /// referencing it back through `submit`, so the model can react.
    /// Failure appends an error-prefixed ToolResult and is never fatal.
    pub fn on_tool_result(&mut self, result: Result<String, String>, now: u64) -> (e: Effect)
        requires
            old(self).wf(),
            !old(self).thinking,
            // The approval already emptied the confirmation: execution
            // happens after the proposed call was taken out.
            old(self).pending_tool_call is None,
        ensures
            final(self).wf(),
            result matches Ok(output) ==> {
                &&& *final(self) == (SessionState {
                    conversation: final(self).conversation,
                    status: final(self).status,
                    thinking: true,
                    thinking_since: now,
                    cancel_token: final(self).cancel_token,
                    input_history: final(self).input_history,
                    history_index: final(self).history_index,
                    ..*old(self)
                })
                &&& final(self).conversation@.len() == old(self).conversation@.len() + 2
                &&& final(self).conversation@.take(old(self).conversation@.len() as int) == old(
                    self,
                ).conversation@
                &&& final(self).conversation@[old(self).conversation@.len() as int].role
                    == MessageRole::ToolResult
                &&& final(self).conversation@[old(self).conversation@.len() as int].content
                    == output
                &&& final(self).conversation@.last().role == MessageRole::User
                &&& final(self).conversation@.last().content@ == "The tool returned:\n"@ + output@
                &&& final(self).thinking
                &&& final(self).thinking_since == now
                &&& final(self).cancel_token is Some
                &&& final(self).status@ == "Thinking..."@
                &&& (e matches Effect::StartRequest { prompt } && prompt@
                    == crate::prompt::prompt_of(final(self).conversation@))
            },
            result matches Err(err) ==> {
                &&& *final(self) == (SessionState {
                    conversation: final(self).conversation,
                    status: final(self).status,
                    ..*old(self)
                })
                &&& final(self).conversation@.len() == old(self).conversation@.len() + 1
                &&& final(self).conversation@.last().role == MessageRole::ToolResult
                &&& final(self).conversation@.last().content@ == "Error: "@ + cleaned_error(err@)
                &&& final(self).status@ == "Tool execution failed: "@ + cleaned_error(err@)
                &&& e is Nothing
            },
    {
        match result {
            Ok(output) => {
                let mut follow_up = "The tool returned:\n".to_owned();
                follow_up.append(output.as_str());
                self.add_tool_result(output);
                let ghost mid = self.conversation@;
                self.status = "Tool executed successfully".to_owned();
                proof {
                    reveal_strlit("The tool returned:\n");
                    crate::text::lemma_trimmed_keeps_head(follow_up@);
                    assert(!is_command_input(follow_up@));
                }
                let e = self.submit(follow_up, now);
                proof {
                    assert(self.conversation@.take(old(self).conversation@.len() as int) =~= old(
                        self,
                    ).conversation@);
                    assert(self.conversation@[old(self).conversation@.len() as int]
                        == mid.last());
                }
                e
            },
            Err(err) => {
                let clean = clean_error(err.as_str());
                let mut st = "Tool execution failed: ".to_owned();
                st.append(clean.as_str());
                self.status = st;
                let mut msg = "Error: ".to_owned();
                msg.append(clean.as_str());
                self.push_message(MessageRole::ToolResult, msg);
                Effect::Nothing
            },
        }
    }

    /// Drain the shared log buffer's unseen lines into the session's local
    /// log view.
    pub fn sync_logs(&mut self, rb: &crate::ring::RingBuffer)
        requires
            old(self).wf(),
            rb.wf(),
            old(self).log_view.seen_upto <= rb.next_seq,
        ensures
            final(self).wf(),
            *final(self) == (SessionState { log_view: final(self).log_view, ..*old(self) }),
            crate::ring::sync_post(old(self).log_view, final(self).log_view, *rb),
    {
        self.log_view.sync_from(rb);
    }

    /// Greet the user with the banner as the first conversation entry.
    pub fn add_welcome_banner(&mut self)
        ensures
            *final(self) == (SessionState { conversation: final(self).conversation, ..*old(self) }),
            appended(*old(self), *final(self), crate::prompt::banner_text()),
    {
        let banner = crate::prompt::welcome_banner();
        self.push_message(MessageRole::Assistant, banner);
    }

    /// Record that one tool server connected.
    pub fn on_server_connected(&mut self, name: String)
        ensures
            *final(self) == (SessionState {
                mcp_connected: final(self).mcp_connected,
                ..*old(self)
            }),
            final(self).mcp_connected@ == old(self).mcp_connected@.push(name),
    {
        self.mcp_connected.push(name);
    }

    /// Record whether a tool server handle exists.
    pub fn set_tool_server_available(&mut self, available: bool)
        ensures
            *final(self) == (SessionState { tool_server_available: available, ..*old(self) }),
    {
        self.tool_server_available = available;
    }

    /// Replace the preamble handed to the completion provider.
    pub fn set_preamble(&mut self, preamble: String)
        ensures
            *final(self) == (SessionState { preamble: final(self).preamble, ..*old(self) }),
            final(self).preamble == preamble,
    {
        self.preamble = preamble;
    }

    /// Report in the status line how many tool servers connected.
    pub fn set_connected_status(&mut self)
        ensures
            *final(self) == (SessionState { status: final(self).status, ..*old(self) }),
            final(self).status@ == "Ready | "@ + dec_str(old(self).mcp_connected@.len() as int)
                + " MCP server(s) connected"@,
    {
        let mut st = "Ready | ".to_owned();
        crate::text::append_count(&mut st, self.mcp_connected.len());
        st.append(" MCP server(s) connected");
        self.status = st;
    }

    /// The conversation, oldest message first.
    pub fn chat_history(&self) -> (h: &Vec<ChatMessage>)
        ensures
            h == &self.conversation,
    {
        &self.conversation
    }

    /// The model requested from the completion provider.
    pub fn model_name(&self) -> (m: &String)
        ensures
            m == &self.model_name,
    {
        &self.model_name
    }

    /// The preamble handed to the completion provider.
    pub fn preamble(&self) -> (p: &String)
        ensures
            p == &self.preamble,
    {
        &self.preamble
    }

    /// The names of the connected tool servers.
    pub fn mcp_connected(&self) -> (c: &Vec<String>)
        ensures
            c == &self.mcp_connected,
    {
        &self.mcp_connected
    }

    /// How many tool servers connected.
    pub fn mcp_server_count(&self) -> (n: usize)
        ensures
            n == self.mcp_connected@.len(),
    {
        self.mcp_connected.len()
    }

    /// The current status line.
    pub fn status(&self) -> (s: &String)
        ensures
            s == &self.status,
    {
        &self.status
    }

    /// Whether exactly one completion request is outstanding.
    pub fn is_thinking(&self) -> (b: bool)
        ensures
            b == self.thinking,
    {
        self.thinking
    }

    /// Whether a proposed tool invocation awaits approval.
    pub fn has_pending_tool_call(&self) -> (b: bool)
        ensures
            b == (self.pending_tool_call is Some),
    {
        self.pending_tool_call.is_some()
    }

    /// The proposed tool invocation awaiting approval, if any.
    pub fn pending_tool_call(&self) -> (p: Option<&PendingToolCall>)
        ensures
            p is Some <==> self.pending_tool_call is Some,
            p is Some ==> p.unwrap() == &self.pending_tool_call.unwrap(),
    {
        self.pending_tool_call.as_ref()
    }

    /// The lines of the session's local log view, oldest first.
    pub fn logs(&self) -> (l: &Vec<String>)
        ensures
            l == &self.log_view.lines,
    {
        &self.log_view.lines
    }

    /// The cancellation token of the outstanding request, if one exists;
    /// the surrounding process clones it into the request task.
    pub fn cancel_token(&self) -> (t: Option<&CancellationToken>)
        ensures
            t is Some <==> self.cancel_token is Some,
    {
        self.cancel_token.as_ref()
    }

    /// Interpret a local command.  Commands are handled entirely inside the
    /// session and never reach the model: no request starts, nothing is
    /// queued, and the request state is untouched.
    pub fn handle_command(&mut self, input: &str) -> (e: Effect)
        requires
            old(self).wf(),
        ensures
            final(self).wf(),
            *final(self) == (SessionState {
                conversation: final(self).conversation,
                status: final(self).status,
                should_quit: final(self).should_quit,
                show_help: final(self).show_help,
                help_scroll_offset: final(self).help_scroll_offset,
                ..*old(self)
            }),
            !(e is StartRequest),
            !(e is ExecuteTool),
            gains_no_user_message(old(self).conversation@, final(self).conversation@),
            ({
                let ws = words_of(input@);
                &&& (!is_help_cmd(ws) && !is_quit_cmd(ws) ==> {
                    &&& final(self).should_quit == old(self).should_quit
                    &&& final(self).show_help == old(self).show_help
                    &&& final(self).help_scroll_offset == old(self).help_scroll_offset
                })
                &&& (is_help_cmd(ws) ==> *final(self) == (SessionState {
                    show_help: true,
                    help_scroll_offset: 0,
                    ..*old(self)
                }) && e is Nothing)
                &&& (is_quit_cmd(ws) ==> *final(self) == (SessionState {
                    should_quit: true,
                    ..*old(self)
                }) && e is Nothing)
                &&& (is_clear_cmd(ws) ==> {
                    &&& final(self).conversation@.len() == 1
                    &&& final(self).conversation@[0].role == MessageRole::Assistant
                    &&& final(self).conversation@[0].content@
                        == "Chat history has been cleared."@
                    &&& final(self).status@ == "Chat history cleared"@
                    &&& final(self).should_quit == old(self).should_quit
                    &&& final(self).show_help == old(self).show_help
                    &&& e is Nothing
                })
                &&& (is_model_cmd(ws) && ws.len() == 1 ==> appended(
                    *old(self),
                    *final(self),
                    "Current model: "@ + old(self).model_name@,
                ) && final(self).status == old(self).status && e is Nothing)
                &&& (is_model_cmd(ws) && ws.len() > 1 ==> appended(
                    *old(self),
                    *final(self),
                    model_updated_text(ws[1]),
                ) && final(self).status@ == "Model changed to: "@ + ws[1] && e is Nothing)
                &&& (is_history_cmd(ws) ==> appended(
                    *old(self),
                    *final(self),
                    history_count_text(old(self).conversation@.len() as int),
                ) && final(self).status == old(self).status && e is Nothing)
                &&& (is_status_cmd(ws) ==> appended(
                    *old(self),
                    *final(self),
                    status_report_text(
                        old(self).status@,
                        old(self).model_name@,
                        old(self).conversation@.len() as int,
                    ),
                ) && final(self).status == old(self).status && e is Nothing)
                &&& (is_yolo_cmd(ws) ==> appended(
                    *old(self),
                    *final(self),
                    "YOLO mode toggle requested. This feature is coming soon!"@,
                ) && final(self).status@ == "YOLO mode toggled (feature pending)"@ && e is Nothing)
                &&& (is_mcp_cmd(ws) ==> mcp_command_post(
                    *old(self),
                    *final(self),
                    ws.drop_first(),
                    e,
                ) && final(self).status == old(self).status)
                &&& (ws.len() == 0 ==> appended(
                    *old(self),
                    *final(self),
                    unknown_command_text(Seq::empty()),
                ) && final(self).status == old(self).status && e is Nothing)
                &&& (ws.len() > 0 && is_unknown_cmd(ws) ==> appended(
                    *old(self),
                    *final(self),
                    unknown_command_text(ws[0]),
                ) && final(self).status == old(self).status && e is Nothing)
            }),
    {
        let words = crate::text::split_words(input);
        let ghost ws = words_of(input@);
        proof {
            assert(words.deep_view() == ws);
        }
        if words.len() == 0 {
            let mut msg = "Unknown command: ".to_owned();
            msg.append(". Type /help for available commands.");
            proof {
                assert(msg@ =~= unknown_command_text(Seq::empty()));
            }
            self.push_message(MessageRole::Assistant, msg);
            return Effect::Nothing;
        }
        proof {
            assert(words.deep_view()[0] == words@[0]@);
            if words@.len() > 1 {
                assert(words.deep_view()[1] == words@[1]@);
            }
        }
        let cmd = words[0].as_str();
        let kind = classify_command(cmd);
        if matches!(kind, CommandKind::Help) {
            self.show_help = true;
            self.help_scroll_offset = 0;
            proof {
                lemma_same_conversation_gains_none(old(self).conversation@, self.conversation@);
            }
            return Effect::Nothing;
        }
        if matches!(kind, CommandKind::Quit) {
            self.should_quit = true;
            proof {
                lemma_same_conversation_gains_none(old(self).conversation@, self.conversation@);
            }
            return Effect::Nothing;
        }
        if matches!(kind, CommandKind::Clear) {
            self.clear_history();
            self.status = "Chat history cleared".to_owned();
            self.push_message(MessageRole::Assistant, "Chat history has been cleared.".to_owned());
            proof {
                assert forall|i: int|
                    0 <= i < self.conversation@.len() && (#[trigger] self.conversation@[i]).role
                        is User implies i < old(self).conversation@.len()
                    && self.conversation@[i] == old(self).conversation@[i] by {
                    assert(self.conversation@[i].role == MessageRole::Assistant);
                }
            }
            return Effect::Nothing;
        }
        if matches!(kind, CommandKind::Model) {
            if words.len() == 1 {
                let mut msg = "Current model: ".to_owned();
                msg.append(self.model_name.as_str());
                self.push_message(MessageRole::Assistant, msg);
            } else {
                let mut st = "Model changed to: ".to_owned();
                st.append(words[1].as_str());
                self.status = st;
                let mut msg = "Model setting updated to '".to_owned();
                msg.append(words[1].as_str());
                msg.append("' (requires restart to apply)");
                proof {
                    assert(msg@ =~= model_updated_text(ws[1]));
                }
                self.push_message(MessageRole::Assistant, msg);
            }
            return Effect::Nothing;
        }
        if matches!(kind, CommandKind::History) {
            let mut msg = "Chat history contains ".to_owned();
            crate::text::append_count(&mut msg, self.conversation.len());
            msg.append(" messages.");
            proof {
                assert(msg@ =~= history_count_text(old(self).conversation@.len() as int));
            }
            self.push_message(MessageRole::Assistant, msg);
            return Effect::Nothing;
        }
        if matches!(kind, CommandKind::ShowStatus) {
            let mut msg = "Status: ".to_owned();
            msg.append(self.status.as_str());
            msg.append("\nModel: ");
            msg.append(self.model_name.as_str());
            msg.append("\nMessages: ");
            crate::text::append_count(&mut msg, self.conversation.len());
            proof {
                assert(msg@ =~= status_report_text(
                    old(self).status@,
                    old(self).model_name@,
                    old(self).conversation@.len() as int,
                ));
            }
            self.push_message(MessageRole::Assistant, msg);
            return Effect::Nothing;
        }
        if matches!(kind, CommandKind::Yolo) {
            self.status = "YOLO mode toggled (feature pending)".to_owned();
            self.push_message(
                MessageRole::Assistant,
                "YOLO mode toggle requested. This feature is coming soon!".to_owned(),
            );
            return Effect::Nothing;
        }
        if matches!(kind, CommandKind::Mcp) {
            let n = words.len();
            let mut args: Vec<String> = Vec::new();
            let mut i: usize = 1;
            while i < n
                invariant
                    1 <= i <= n,
                    n == words@.len(),
                    args@ == words@.subrange(1, i as int),
                decreases n - i,
            {
                args.push(words[i].clone());
                proof {
                    assert(args@ =~= words@.subrange(1, i + 1));
                }
                i = i + 1;
            }
            proof {
                assert(args@ =~= words@.drop_first());
                assert(args.deep_view() =~= ws.drop_first());
            }
            return self.handle_mcp_command(&args);
        }
        let mut msg = "Unknown command: ".to_owned();
        msg.append(cmd);
        msg.append(". Type /help for available commands.");
        proof {
            assert(msg@ =~= unknown_command_text(ws[0]));
        }
        self.push_message(MessageRole::Assistant, msg);
        Effect::Nothing
    }

    /// Record the tool definitions fetched after a `FetchToolDefs` effect:
    /// list them in the conversation, or report the fetch failure.
    pub fn on_tool_defs(&mut self, result: Result<Vec<ToolDef>, String>)
        requires
            old(self).wf(),
        ensures
            final(self).wf(),
            *final(self) == (SessionState { conversation: final(self).conversation, ..*old(self) }),
            result matches Ok(ds) ==> {
                &&& ds@.len() == 0 ==> appended(*old(self), *final(self), "No MCP tools available."@)
                &&& ds@.len() > 0 ==> appended(*old(self), *final(self), tools_text(ds@))
            },
            result matches Err(err) ==> appended(
                *old(self),
                *final(self),
                "Failed to get tool definitions: "@ + err@,
            ),
    {
        match result {
            Ok(defs) => {
                if defs.len() == 0 {
                    self.push_message(MessageRole::Assistant, "No MCP tools available.".to_owned());
                } else {
                    let n = defs.len();
                    let mut msg = "**Available MCP tools** (".to_owned();
                    crate::text::append_count(&mut msg, n);
                    msg.append(" total):\n\n");
                    proof {
                        assert(defs@.skip(0) =~= defs@);
                        assert(msg@ + tool_def_rows(defs@.skip(0), 1) =~= tools_text(defs@));
                    }
                    let mut i: usize = 0;
                    while i < n
                        invariant
                            0 <= i <= n,
                            n == defs@.len(),
                            msg@ + tool_def_rows(defs@.skip(i as int), i + 1) == tools_text(defs@),
                        decreases n - i,
                    {
                        msg.append("**");
                        crate::text::append_count(&mut msg, i + 1);
                        msg.append(".** `");
                        msg.append(defs[i].name.as_str());
                        msg.append("`\n    ");
                        msg.append(defs[i].description.as_str());
                        msg.append("\n\n");
                        proof {
                            assert(defs@.skip(i as int).drop_first() =~= defs@.skip(i + 1));
                            assert(defs@.skip(i as int)[0] == defs@[i as int]);
                            assert(msg@ + tool_def_rows(defs@.skip(i + 1), i + 2) =~= tools_text(
                                defs@,
                            ));
                        }
                        i = i + 1;
                    }
                    proof {
                        assert(defs@.skip(n as int) =~= Seq::<ToolDef>::empty());
                        assert(msg@ =~= tools_text(defs@));
                    }
                    self.push_message(MessageRole::Assistant, msg);
                }
            },
            Err(err) => {
                let mut msg = "Failed to get tool definitions: ".to_owned();
                msg.append(err.as_str());
                self.push_message(MessageRole::Assistant, msg);
            },
        }
    }
}

/// `post`'s conversation is `pre`'s with one Assistant message of the given
/// text appended; a local command's way of answering the user.
pub open spec fn appended(pre: SessionState, post: SessionState, text: Seq<char>) -> bool {
    &&& post.conversation@.len() == pre.conversation@.len() + 1
    &&& post.conversation@ == pre.conversation@.push(post.conversation@.last())
    &&& post.conversation@.last().role == MessageRole::Assistant
    &&& post.conversation@.last().content@ == text
}

/// The local commands, keyed by their (case-folded) command word.
#[derive(Clone, Copy, Debug, PartialEq, Eq, Structural)]
pub enum CommandKind {
    Help,
    Quit,
    Clear,
    Model,
    History,
    ShowStatus,
    Yolo,
    Mcp,
    Unknown,
}

/// Which local command the word `w` names, matched case-insensitively.
pub open spec fn command_kind(w: Seq<char>) -> CommandKind {
    if lower_seq(w) == lower_seq("/help"@) || lower_seq(w) == lower_seq("/h"@) || lower_seq(w)
        == lower_seq("/?"@) {
        CommandKind::Help
    } else if lower_seq(w) == lower_seq("/quit"@) || lower_seq(w) == lower_seq("/exit"@)
        || lower_seq(w) == lower_seq("/q"@) {
        CommandKind::Quit
    } else if lower_seq(w) == lower_seq("/clear"@) || lower_seq(w) == lower_seq("/cls"@) {
        CommandKind::Clear
    } else if lower_seq(w) == lower_seq("/model"@) {
        CommandKind::Model
    } else if lower_seq(w) == lower_seq("/history"@) || lower_seq(w) == lower_seq("/hist"@) {
        CommandKind::History
    } else if lower_seq(w) == lower_seq("/status"@) {
        CommandKind::ShowStatus
    } else if lower_seq(w) == lower_seq("/yolo"@) {
        CommandKind::Yolo
    } else if lower_seq(w) == lower_seq("/mcp"@) || lower_seq(w) == lower_seq("/mcp-servers"@) {
        CommandKind::Mcp
    } else {
        CommandKind::Unknown
    }
}

/// Which local command the token names, matched case-insensitively.
pub fn classify_command(cmd: &str) -> (k: CommandKind)
    ensures
        k == command_kind(cmd@),
{
    if crate::text::eq_ignore_ascii_case(cmd, "/help") || crate::text::eq_ignore_ascii_case(
        cmd,
        "/h",
    ) || crate::text::eq_ignore_ascii_case(cmd, "/?") {
        CommandKind::Help
    } else if crate::text::eq_ignore_ascii_case(cmd, "/quit") || crate::text::eq_ignore_ascii_case(
        cmd,
        "/exit",
    ) || crate::text::eq_ignore_ascii_case(cmd, "/q") {
        CommandKind::Quit
    } else if crate::text::eq_ignore_ascii_case(cmd, "/clear") || crate::text::eq_ignore_ascii_case(
        cmd,
        "/cls",
    ) {
        CommandKind::Clear
    } else if crate::text::eq_ignore_ascii_case(cmd, "/model") {
        CommandKind::Model
    } else if crate::text::eq_ignore_ascii_case(cmd, "/history")
        || crate::text::eq_ignore_ascii_case(cmd, "/hist") {
        CommandKind::History
    } else if crate::text::eq_ignore_ascii_case(cmd, "/status") {
        CommandKind::ShowStatus
    } else if crate::text::eq_ignore_ascii_case(cmd, "/yolo") {
        CommandKind::Yolo
    } else if crate::text::eq_ignore_ascii_case(cmd, "/mcp") || crate::text::eq_ignore_ascii_case(
        cmd,
        "/mcp-servers",
    ) {
        CommandKind::Mcp
    } else {
        CommandKind::Unknown
    }
}

pub open spec fn is_help_cmd(ws: Seq<Seq<char>>) -> bool {
    ws.len() > 0 && command_kind(ws[0]) is Help
}

pub open spec fn is_quit_cmd(ws: Seq<Seq<char>>) -> bool {
    ws.len() > 0 && command_kind(ws[0]) is Quit
}

pub open spec fn is_clear_cmd(ws: Seq<Seq<char>>) -> bool {
    ws.len() > 0 && command_kind(ws[0]) is Clear
}

pub open spec fn is_model_cmd(ws: Seq<Seq<char>>) -> bool {
    ws.len() > 0 && command_kind(ws[0]) is Model
}

pub open spec fn is_history_cmd(ws: Seq<Seq<char>>) -> bool {
    ws.len() > 0 && command_kind(ws[0]) is History
}

pub open spec fn is_status_cmd(ws: Seq<Seq<char>>) -> bool {
    ws.len() > 0 && command_kind(ws[0]) is ShowStatus
}

pub open spec fn is_yolo_cmd(ws: Seq<Seq<char>>) -> bool {
    ws.len() > 0 && command_kind(ws[0]) is Yolo
}

pub open spec fn is_mcp_cmd(ws: Seq<Seq<char>>) -> bool {
    ws.len() > 0 && command_kind(ws[0]) is Mcp
}

/// No local command's name matches the first word.
pub open spec fn is_unknown_cmd(ws: Seq<Seq<char>>) -> bool {
    ws.len() > 0 && command_kind(ws[0]) is Unknown
}

pub open spec fn model_updated_text(name: Seq<char>) -> Seq<char> {
    "Model setting updated to '"@ + name + "' (requires restart to apply)"@
}

pub open spec fn history_count_text(n: int) -> Seq<char> {
    "Chat history contains "@ + dec_str(n) + " messages."@
}

pub open spec fn status_report_text(status: Seq<char>, model: Seq<char>, n: int) -> Seq<char> {
    "Status: "@ + status + "\nModel: "@ + model + "\nMessages: "@ + dec_str(n)
}

pub open spec fn unknown_command_text(cmd: Seq<char>) -> Seq<char> {
    "Unknown command: "@ + cmd + ". Type /help for available commands."@
}

/// The header of the tool-server status answer.
pub open spec fn mcp_header_text(total: int, enabled: int, connected: int) -> Seq<char> {
    "MCP Configuration:\n  Configured servers: "@ + dec_str(total) + "\n  Enabled: "@ + dec_str(
        enabled,
    ) + "\n  Connected: "@ + dec_str(connected) + "\n\n"@
}

/// One row per connected server name.
pub open spec fn connected_rows(names: Seq<String>) -> Seq<char>
    decreases names.len(),
{
    if names.len() == 0 {
        Seq::empty()
    } else {
        connected_rows(names.drop_last()) + "  \u{2713} "@ + names.last()@ + "\n"@
    }
}

pub open spec fn mcp_commands_tail(total: int) -> Seq<char> {
    if total > 0 {
        "\nCommands:\n  /mcp list     - List all configured servers\n  /mcp tools    - Show available MCP tools\n  /mcp add <name> <url> - Add a new server\n"@
    } else {
        "\nNo MCP servers configured.\nAdd servers by editing ~/.config/pcli2-rig/config.toml\n"@
    }
}

/// The whole tool-server status answer.
pub open spec fn mcp_status_text(total: int, enabled: int, names: Seq<String>) -> Seq<char> {
    mcp_header_text(total, enabled, names.len() as int) + (if names.len() > 0 {
        "Connected servers:\n"@ + connected_rows(names)
    } else {
        Seq::empty()
    }) + mcp_commands_tail(total)
}

/// One row per configured server.
pub open spec fn server_row(m: McpServerConfig) -> Seq<char> {
    "  "@ + (if m.enabled {
        "\u{2713}"@
    } else {
        "\u{2717}"@
    }) + " "@ + m.name@ + " ("@ + m.url@ + ")\n"@
}

pub open spec fn server_rows(ms: Seq<McpServerConfig>) -> Seq<char>
    decreases ms.len(),
{
    if ms.len() == 0 {
        Seq::empty()
    } else {
        server_rows(ms.drop_last()) + server_row(ms.last())
    }
}

pub open spec fn mcp_list_text(ms: Seq<McpServerConfig>) -> Seq<char> {
    "Configured MCP servers:\n"@ + server_rows(ms)
}

pub open spec fn mcp_add_text(name: Seq<char>, url: Seq<char>) -> Seq<char> {
    "To add MCP server '"@ + name
        + "', edit ~/.config/pcli2-rig/config.toml\nAdd this section:\n[[mcp_servers]]\nname = \""@
        + name + "\"\nurl = \""@ + url + "\"\nenabled = true"@
}

pub open spec fn unknown_mcp_text(arg: Seq<char>) -> Seq<char> {
    "Unknown MCP command: "@ + arg + ". Type /mcp for help."@
}

/// One numbered row per available tool.
pub open spec fn tool_def_rows(ds: Seq<ToolDef>, i0: int) -> Seq<char>
    decreases ds.len(),
{
    if ds.len() == 0 {
        Seq::empty()
    } else {
        "**"@ + dec_str(i0) + ".** `"@ + ds[0].name@ + "`\n    "@ + ds[0].description@ + "\n\n"@
            + tool_def_rows(ds.drop_first(), i0 + 1)
    }
}

/// The answer listing every available tool.
pub open spec fn tools_text(ds: Seq<ToolDef>) -> Seq<char> {
    "**Available MCP tools** ("@ + dec_str(ds.len() as int) + " total):\n\n"@ + tool_def_rows(
        ds,
        1,
    )
}

/// What handling the tool-server subcommand `args` does to the session.
pub open spec fn mcp_command_post(
    pre: SessionState,
    post: SessionState,
    args: Seq<Seq<char>>,
    e: Effect,
) -> bool {
    &&& (args.len() == 0 ==> appended(
        pre,
        post,
        mcp_status_text(
            pre.mcp_servers@.len() as int,
            pre.mcp_servers@.filter(|m: McpServerConfig| m.enabled).len() as int,
            pre.mcp_connected@,
        ),
    ) && e is Nothing)
    &&& (args.len() > 0 && args[0] == "list"@ ==> appended(pre, post, mcp_list_text(pre.mcp_servers@))
        && e is Nothing)
    &&& (args.len() > 0 && args[0] == "tools"@ && pre.tool_server_available ==> post.conversation
        == pre.conversation && e is FetchToolDefs)
    &&& (args.len() > 0 && args[0] == "tools"@ && !pre.tool_server_available ==> appended(
        pre,
        post,
        "No MCP server connected. Configure with --setup-mcp or --mcp-remote."@,
    ) && e is Nothing)
    &&& (args.len() > 0 && args[0] == "add"@ && args.len() < 3 ==> appended(
        pre,
        post,
        "Usage: /mcp add <name> <url>"@,
    ) && e is Nothing)
    &&& (args.len() >= 3 && args[0] == "add"@ ==> appended(
        pre,
        post,
        mcp_add_text(args[1], args[2]),
    ) && e is Nothing)
    &&& (args.len() > 0 && !(args[0] == "list"@) && !(args[0] == "tools"@) && !(args[0] == "add"@)
        ==> appended(pre, post, unknown_mcp_text(args[0])) && e is Nothing)
}

/// Where the input window scrolls to keep a caret at `cursor` visible from
/// offset `h`.
pub open spec fn adjusted_hscroll(cursor: int, h: int) -> int {
    if cursor < h {
        cursor
    } else if cursor - h >= 80 {
        cursor - 79
    } else {
        h
    }
}

} // verus!

use vstd::prelude::*;
use vstd::string::*;

use crate::paths::{join_path, joined_path, views};
use crate::text::str_eq;

verus! {

// ---------------------------------------------------------------------------
// The command line handed to the engine
// ---------------------------------------------------------------------------

/// `parts` joined with single spaces.
pub open spec fn join_with_spaces(parts: Seq<Seq<char>>) -> Seq<char>
    decreases parts.len(),
{
    if parts.len() == 0 {
        Seq::empty()
    } else if parts.len() == 1 {
        parts[0]
    } else {
        join_with_spaces(parts.drop_last()) + seq![' '] + parts.last()
    }
}

/// The words of the engine's command line: the program, then `extra`, then
/// the launcher's own arguments.
pub open spec fn launch_words(args: Seq<Seq<char>>, extra: Seq<Seq<char>>) -> Seq<Seq<char>> {
    seq![args[0]] + extra + args.skip(1)
}

/// The command line for the engine, from the launcher's command line `args`
/// (the program first) and the `extra` flags put right after the program;
/// `None` where there is no program.
pub fn command_line_arguments(args: &Vec<String>, extra: &[&str]) -> (res: Option<String>)
    ensures
        args@.len() == 0 ==> res is None,
        args@.len() > 0 ==> (res matches Some(line) && line@ == join_with_spaces(
            launch_words(args@.map_values(|s: String| s@), views(extra@)),
        )),
{
    if args.len() == 0 {
        return None;
    }
    let ghost words = launch_words(args@.map_values(|s: String| s@), views(extra@));
    let mut line = args[0].clone();
    assert(words.take(1) =~= seq![args@[0]@]);
    let mut i: usize = 0;
    while i < extra.len()
        invariant
            args@.len() > 0,
            i <= extra@.len(),
            words == launch_words(args@.map_values(|s: String| s@), views(extra@)),
            line@ == join_with_spaces(words.take(1 + i)),
        decreases extra@.len() - i,
    {
        line.append(" ");
        line.append(extra[i]);
        proof {
            reveal_strlit(" ");
            assert(words.take(2 + i).drop_last() =~= words.take(1 + i));
            assert(words.take(2 + i).last() == words[1 + i]);
            assert(words[1 + i] == extra@[i as int]@);
        }
        i = i + 1;
    }
    let mut k: usize = 1;
    while k < args.len()
        invariant
            args@.len() > 0,
            1 <= k <= args@.len(),
            words == launch_words(args@.map_values(|s: String| s@), views(extra@)),
            words.len() == extra@.len() + args@.len(),
            line@ == join_with_spaces(words.take(extra@.len() + k as int)),
        decreases args@.len() - k,
    {
        line.append(" ");
        line.append(args[k].as_str());
        proof {
            reveal_strlit(" ");
            let e = extra@.len() as int;
            assert(words.take(e + k + 1).drop_last() =~= words.take(e + k));
            assert(words.take(e + k + 1).last() == words[e + k]);
            assert(words[e + k] == args@[k as int]@);
        }
        k = k + 1;
    }
    assert(words.take(words.len() as int) =~= words);
    Some(line)
}

/// The flags with which the launcher starts the engine: the Source 2 Tools on
/// the hollowed-out game, with an addon, in a tiny hidden borderless window,
/// allowing several instances.
pub open spec fn tools_flags() -> Seq<Seq<char>> {
    seq![
        "-tools"@,
        "-game core"@,
        "-addon foo"@,
        "-w 4"@,
        "-h 4"@,
        "-x -4"@,
        "-y -4"@,
        "-noborder"@,
        "-allowmultiple"@,
    ]
}

/// The flags the launcher puts after the program name.
pub fn tools_launch_flags() -> (res: Vec<&'static str>)
    ensures
        views(res@) == tools_flags(),
{
    let res = vec![
        "-tools",
        "-game core",
        "-addon foo",
        "-w 4",
        "-h 4",
        "-x -4",
        "-y -4",
        "-noborder",
        "-allowmultiple",
    ];
    assert(views(res@) =~= tools_flags());
    res
}

// ---------------------------------------------------------------------------
// The launcher's folder, cut out of its own path
// ---------------------------------------------------------------------------

/// `n` is where the text in `buf` ends: its first NUL, or the buffer's end
/// where there is none.
pub open spec fn is_text_end(buf: Seq<u16>, n: int) -> bool {
    &&& 0 <= n <= buf.len()
    &&& (n < buf.len() ==> buf[n] == 0)
    &&& forall|j: int| 0 <= j < n ==> #[trigger] buf[j] != 0
}

/// `c` is the position of the last backslash before `n`, or 0 where there is none.
pub open spec fn is_last_backslash(buf: Seq<u16>, n: int, c: int) -> bool {
    ||| (0 <= c < n && buf[c] == 92 && forall|j: int| c < j < n ==> #[trigger] buf[j] != 92)
    ||| (c == 0 && forall|j: int| 0 <= j < n ==> #[trigger] buf[j] != 92)
}

/// Where the text of a buffer ends is determined by the buffer.
pub proof fn lemma_text_end_unique(buf: Seq<u16>, n: int, m: int)
    requires
        is_text_end(buf, n),
        is_text_end(buf, m),
    ensures
        n == m,
{
    if n < m {
        assert(buf[n] != 0);
    } else if m < n {
        assert(buf[m] != 0);
    }
}

/// Where to end the launcher's path so that it names its folder: the last
/// backslash of the text in `buf` (a wide-character path, NUL-terminated
/// unless it fills the buffer), or the start where there is none.
pub fn base_dir_cut(buf: &[u16]) -> (res: usize)
    ensures
        exists|n: int| is_text_end(buf@, n) && is_last_backslash(buf@, n, res as int),
{
    let mut n: usize = 0;
    while n < buf.len() && buf[n] != 0
        invariant
            n <= buf@.len(),
            forall|j: int| 0 <= j < n ==> #[trigger] buf@[j] != 0,
        decreases buf@.len() - n,
    {
        n = n + 1;
    }
    assert(is_text_end(buf@, n as int));
    let mut c: usize = n;
    while c > 0 && buf[c - 1] != 92
        invariant
            c <= n,
            n <= buf@.len(),
            forall|j: int| c <= j < n ==> #[trigger] buf@[j] != 92,
        decreases c,
    {
        c = c - 1;
    }
    if c == 0 {
        assert(is_last_backslash(buf@, n as int, 0));
        0
    } else {
        assert(is_last_backslash(buf@, n as int, c - 1));
        c - 1
    }
}

/// Ends the path in `buf` at its last backslash, so that it names the folder;
/// where there is no backslash the path becomes empty.
pub fn cut_to_base_dir(buf: &mut Vec<u16>)
    requires
        old(buf)@.len() > 0,
    ensures
        exists|n: int, c: int|
            is_text_end(old(buf)@, n) && is_last_backslash(old(buf)@, n, c) && final(buf)@ == old(
                buf,
            )@.update(c, 0u16),
{
    let c = base_dir_cut(buf.as_slice());
    let ghost before = buf@;
    assert(c < before.len());
    buf.set(c, 0);
}

// ---------------------------------------------------------------------------
// Watching for the Asset Browser
// ---------------------------------------------------------------------------

/// What the launcher knows of the Asset Browser window.
#[derive(PartialEq, Eq, Structural, Clone, Copy, Debug)]
pub enum WindowState {
    /// Not seen yet.
    Uninit,
    /// Seen before, and looked for again in this round.
    Searching,
    /// Seen.
    Open,
}

/// What looking at one visible, titled window gives: the new state, and
/// whether to hide the window from the taskbar.
pub struct Observation {
    pub state: WindowState,
    pub hide: bool,
}

/// Looks at a visible window with the title `title`. The engine's "Core" window
/// is hidden from the taskbar while the Asset Browser has not been seen; a
/// window titled "Asset Browser" marks it as seen.
pub fn observe_window(state: WindowState, title: &str) -> (res: Observation)
    ensures
        res.hide == (title@ == "Core"@ && state == WindowState::Uninit),
        res.state == (if title@ == "Asset Browser"@ {
            WindowState::Open
        } else {
            state
        }),
{
    let hide = str_eq(title, "Core") && state == WindowState::Uninit;
    let state = if str_eq(title, "Asset Browser") {
        WindowState::Open
    } else {
        state
    };
    Observation { state, hide }
}

/// Whether a window with the title `title` can matter to the watcher: only
/// the engine's "Core" window and the Asset Browser do; for any other title
/// [`observe_window`] changes nothing and hides nothing.
pub fn window_matters(title: &str) -> (res: bool)
    ensures
        res == (title@ == "Core"@ || title@ == "Asset Browser"@),
        !res ==> !observe_window_hides(title@) && !observe_window_opens(title@),
{
    str_eq(title, "Core") || str_eq(title, "Asset Browser")
}

/// Whether [`observe_window`] may hide a window titled `title`.
pub open spec fn observe_window_hides(title: Seq<char>) -> bool {
    title == "Core"@
}

/// Whether [`observe_window`] marks the browser as seen for a window titled `title`.
pub open spec fn observe_window_opens(title: Seq<char>) -> bool {
    title == "Asset Browser"@
}

/// Whether to go on through the windows (and into a window's children): only
/// until the Asset Browser has been found.
pub fn keep_enumerating(state: WindowState) -> (res: bool)
    ensures
        res == (state != WindowState::Open),
{
    state != WindowState::Open
}

/// The state at the start of a round over all windows: a browser seen before
/// must be found again.
pub fn begin_round(state: WindowState) -> (res: WindowState)
    ensures
        res == (if state == WindowState::Open {
            WindowState::Searching
        } else {
            state
        }),
{
    if state == WindowState::Open {
        WindowState::Searching
    } else {
        state
    }
}

/// Whether the Asset Browser has been closed, from the state at the end of a
/// round: it was looked for and not found.
pub fn round_closed(state: WindowState) -> (res: bool)
    ensures
        res == (state == WindowState::Searching),
{
    state == WindowState::Searching
}

/// The state after looking at windows titled `titles`, in order.
pub open spec fn observe_all(state: WindowState, titles: Seq<Seq<char>>) -> WindowState
    decreases titles.len(),
{
    if titles.len() == 0 {
        state
    } else {
        observe_all(
            if titles[0] == "Asset Browser"@ {
                WindowState::Open
            } else {
                state
            },
            titles.drop_first(),
        )
    }
}

/// Whether a round over the windows titled `titles`, starting from `state`,
/// reports the Asset Browser closed.
pub open spec fn round_reports_closed(state: WindowState, titles: Seq<Seq<char>>) -> bool {
    observe_all(
        if state == WindowState::Open {
            WindowState::Searching
        } else {
            state
        },
        titles,
    ) == WindowState::Searching
}

proof fn lemma_observe_all(state: WindowState, titles: Seq<Seq<char>>)
    ensures
        titles.contains("Asset Browser"@) ==> observe_all(state, titles) == WindowState::Open,
        !titles.contains("Asset Browser"@) ==> observe_all(state, titles) == state,
    decreases titles.len(),
{
    if titles.len() > 0 {
        let next = if titles[0] == "Asset Browser"@ {
            WindowState::Open
        } else {
            state
        };
        lemma_observe_all(next, titles.drop_first());
        if titles.contains("Asset Browser"@) && titles[0] != "Asset Browser"@ {
            let i = choose|i: int| 0 <= i < titles.len() && titles[i] == "Asset Browser"@;
            assert(titles.drop_first()[i - 1] == "Asset Browser"@);
        }
        if titles.drop_first().contains("Asset Browser"@) {
            let i = choose|i: int|
                0 <= i < titles.drop_first().len() && titles.drop_first()[i] == "Asset Browser"@;
            assert(titles[i + 1] == "Asset Browser"@);
        }
        if titles[0] == "Asset Browser"@ {
            assert(titles.contains("Asset Browser"@)) by {
                assert(titles[0] == "Asset Browser"@);
            }
            lemma_observe_all_open(titles.drop_first());
        }
    }
}

proof fn lemma_observe_all_open(titles: Seq<Seq<char>>)
    ensures
        observe_all(WindowState::Open, titles) == WindowState::Open,
    decreases titles.len(),
{
    if titles.len() > 0 {
        lemma_observe_all_open(titles.drop_first());
    }
}

/// A round reports the Asset Browser closed exactly when it had been seen
/// before and none of the windows of this round carries its title; before the
/// browser was ever seen, no round reports it closed.
pub proof fn lemma_closed_iff_seen_then_missing(state: WindowState, titles: Seq<Seq<char>>)
    ensures
        round_reports_closed(state, titles) <==> (state != WindowState::Uninit
            && !titles.contains("Asset Browser"@)),
{
    let start = if state == WindowState::Open {
        WindowState::Searching
    } else {
        state
    };
    lemma_observe_all(start, titles);
}

/// Once the Asset Browser has been seen, the watcher never forgets it: no
/// step leads back to the state of a browser never seen.
pub proof fn lemma_seen_stays_seen(state: WindowState, title: Seq<char>)
    requires
        state != WindowState::Uninit,
    ensures
        (if title == "Asset Browser"@ {
            WindowState::Open
        } else {
            state
        }) != WindowState::Uninit,
        (if state == WindowState::Open {
            WindowState::Searching
        } else {
            state
        }) != WindowState::Uninit,
{
}

// ---------------------------------------------------------------------------
// Hiding the engine's window from the taskbar
// ---------------------------------------------------------------------------

/// The extended style bit of a tool window (`WS_EX_TOOLWINDOW`).
pub const TOOL_WINDOW_STYLE: isize = 0x80;

/// The extended style bit that puts a window on the taskbar (`WS_EX_APPWINDOW`).
pub const APP_WINDOW_STYLE: isize = 0x40000;

/// The extended window style `ex` turned into that of a tool window that is
/// not on the taskbar.
pub fn taskbar_hidden_style(ex: isize) -> (res: isize)
    ensures
        res == (ex | 0x80isize) & !0x40000isize,
        res & 0x80isize == 0x80isize,
        res & 0x40000isize == 0isize,
        res & !0x40080isize == ex & !0x40080isize,
{
    let res = (ex | TOOL_WINDOW_STYLE) & !APP_WINDOW_STYLE;
    assert(res & 0x80isize == 0x80isize) by (bit_vector)
        requires
            res == (ex | 0x80isize) & !0x40000isize,
    ;
    assert(res & 0x40000isize == 0isize) by (bit_vector)
        requires
            res == (ex | 0x80isize) & !0x40000isize,
    ;
    assert(res & !0x40080isize == ex & !0x40080isize) by (bit_vector)
        requires
            res == (ex | 0x80isize) & !0x40000isize,
    ;
    res
}

// ---------------------------------------------------------------------------
// The resource compiler wrapper
// ---------------------------------------------------------------------------

/// The real resource compiler, moved aside by the setup, in the folder `dir`.
pub fn inner_compiler_path(dir: &str) -> (res: String)
    ensures
        res@ == joined_path(dir@, "resourcecompiler_inner.exe"@),
{
    join_path(dir, "resourcecompiler_inner.exe")
}

/// The wrapper's exit code: that of the real compiler, or 1 where it ended
/// without one.
pub fn forwarded_exit_code(code: Option<i32>) -> (res: i32)
    ensures
        res == match code {
            Some(c) => c,
            None => 1i32,
        },
{
    match code {
        Some(c) => c,
        None => 1,
    }
}

} // verus!

//! Which operating-system call opens a URL, platform by platform.

use vstd::prelude::*;
use vstd::string::StrSliceExecFns;
use vstd::string::StringExecFns;

use crate::platform::Platform;

verus! {

/// One call to the operating system that opens a URL in the default browser.
#[derive(Debug, PartialEq, Eq)]
pub enum Dispatch {
    /// Ask the shell to apply `verb` to `target`.
    ShellExecute { verb: String, target: String },
    /// Start `program` with `argument` as its only argument, without waiting
    /// for it to finish.
    Spawn { program: String, argument: String },
}

/// A dispatch as the text that it hands to the operating system.
pub enum DispatchView {
    ShellExecute { verb: Seq<char>, target: Seq<char> },
    Spawn { program: Seq<char>, argument: Seq<char> },
}

impl DispatchView {
    /// The text that names what is to be opened.
    pub open spec fn target(self) -> Seq<char> {
        match self {
            DispatchView::ShellExecute { target, .. } => target,
            DispatchView::Spawn { argument, .. } => argument,
        }
    }
}

impl View for Dispatch {
    type V = DispatchView;

    open spec fn view(&self) -> DispatchView {
        match self {
            Dispatch::ShellExecute { verb, target } => DispatchView::ShellExecute {
                verb: verb@,
                target: target@,
            },
            Dispatch::Spawn { program, argument } => DispatchView::Spawn {
                program: program@,
                argument: argument@,
            },
        }
    }
}

/// How `url` is opened on `platform`: through the shell's `open` verb on
/// Windows, by starting `open` on macOS and `xdg-open` on Linux. The URL is
/// passed with its newlines encoded, on every platform.
pub open spec fn dispatch_of(platform: Platform, url: Seq<char>) -> DispatchView {
    let target = newlines_encoded(url);
    match platform {
        Platform::Windows => DispatchView::ShellExecute { verb: "open"@, target },
        Platform::MacOs => DispatchView::Spawn { program: "open"@, argument: target },
        Platform::Linux => DispatchView::Spawn { program: "xdg-open"@, argument: target },
    }
}

/// `s` with each newline replaced by its percent-encoding `%0A`.
pub open spec fn newlines_encoded(s: Seq<char>) -> Seq<char>
    decreases s.len(),
{
    if s.len() == 0 {
        Seq::empty()
    } else if s.last() == '\n' {
        newlines_encoded(s.drop_last()) + "%0A"@
    } else {
        newlines_encoded(s.drop_last()).push(s.last())
    }
}

proof fn lemma_encoded_push(s: Seq<char>, c: char)
    ensures
        newlines_encoded(s.push(c)) == if c == '\n' {
            newlines_encoded(s) + "%0A"@
        } else {
            newlines_encoded(s).push(c)
        },
{
    assert(s.push(c).drop_last() == s);
}

/// Text without a newline is left as it is.
pub proof fn lemma_encoded_unchanged(s: Seq<char>)
    requires
        !s.contains('\n'),
    ensures
        newlines_encoded(s) == s,
    decreases s.len(),
{
    if s.len() > 0 {
        assert(!s.drop_last().contains('\n')) by {
            if s.drop_last().contains('\n') {
                let k = choose|k: int| 0 <= k < s.drop_last().len() && s.drop_last()[k] == '\n';
                assert(s[k] == '\n');
            }
        }
        lemma_encoded_unchanged(s.drop_last());
        assert(s.last() != '\n') by {
            assert(s[s.len() - 1] == s.last());
        }
        assert(s.drop_last().push(s.last()) == s);
    }
}

/// Encoded text holds no newline.
pub proof fn lemma_encoded_single_line(s: Seq<char>)
    ensures
        !newlines_encoded(s).contains('\n'),
    decreases s.len(),
{
    reveal_strlit("%0A");
    if s.len() > 0 {
        lemma_encoded_single_line(s.drop_last());
        let e = newlines_encoded(s);
        let p = newlines_encoded(s.drop_last());
        assert forall|k: int| 0 <= k < e.len() implies e[k] != '\n' by {
            if k < p.len() {
                assert(e[k] == p[k]);
            }
        }
    }
}

/// Copies `s`, writing each newline as `%0A`, so that the text handed to the
/// operating system is a single line.
pub fn encode_newlines(s: &str) -> (r: String)
    ensures
        r@ == newlines_encoded(s@),
{
    let n = s.unicode_len();
    let mut r = String::new();
    let mut start: usize = 0;
    let mut i: usize = 0;
    for c in it: s.chars()
        invariant
            it.seq() == s@,
            i == it.index(),
            n == s@.len(),
            start <= i <= n,
            r@ + s@.subrange(start as int, i as int) == newlines_encoded(s@.take(i as int)),
    {
        proof {
            lemma_encoded_push(s@.take(i as int), c);
            assert(s@.take(i + 1) == s@.take(i as int).push(c));
        }
        if c == '\n' {
            r.append(s.substring_char(start, i));
            r.append("%0A");
            start = i + 1;
        } else {
            assert(s@.subrange(start as int, i + 1) == s@.subrange(start as int, i as int).push(c));
        }
        i = i + 1;
    }
    r.append(s.substring_char(start, i));
    assert(s@.take(i as int) == s@);
    r
}

/// The operating-system call that opens `url` in the default browser on
/// `platform`.
pub fn dispatch_for(platform: Platform, url: &str) -> (d: Dispatch)
    ensures
        d@ == dispatch_of(platform, url@),
{
    let target = encode_newlines(url);
    match platform {
        Platform::Windows => Dispatch::ShellExecute { verb: String::from_str("open"), target },
        Platform::MacOs => Dispatch::Spawn { program: String::from_str("open"), argument: target },
        Platform::Linux => Dispatch::Spawn {
            program: String::from_str("xdg-open"),
            argument: target,
        },
    }
}

/// A URL without a newline reaches the operating system exactly as it is
/// written, as the one text of its dispatch, on every platform.
pub proof fn lemma_dispatch_carries_url(platform: Platform, url: Seq<char>)
    requires
        !url.contains('\n'),
    ensures
        dispatch_of(platform, url).target() == url,
{
    lemma_encoded_unchanged(url);
}

/// Whatever the URL, the text handed to the operating system is a single
/// line: each newline of the URL arrives as `%0A`.
pub proof fn lemma_dispatch_single_line(platform: Platform, url: Seq<char>)
    ensures
        dispatch_of(platform, url).target() == newlines_encoded(url),
        !dispatch_of(platform, url).target().contains('\n'),
{
    lemma_encoded_single_line(url);
}

} // verus!

use vstd::prelude::*;
use crate::text::{contains_text, text_contains};

verus! {

/// Marker that starts every end-of-command sentinel.
pub const SENTINEL_PREFIX: &'static str = "__RC_END__:";

/// Which shell the agent drives, fixed for the life of the process.
#[derive(Clone, Copy, Debug, PartialEq, Eq, Structural)]
pub enum ShellKind {
    PowerShell,
    Cmd,
}

/// Captured standard output and standard error of one command.
#[derive(Clone, Debug)]
pub struct CmdResult {
    pub stdout: String,
    pub stderr: String,
}

/// One line read from the shared session, tagged with its stream.
#[derive(Clone, Debug)]
pub struct OutputLine {
    pub is_stderr: bool,
    pub text: String,
}

impl View for OutputLine {
    type V = (bool, Seq<char>);

    open spec fn view(&self) -> (bool, Seq<char>) {
        (self.is_stderr, self.text@)
    }
}

/// A line as it is stored in an accumulator: its text and a newline.
pub open spec fn with_newline(t: Seq<char>) -> Seq<char> {
    t + seq!['\n']
}

/// The lines of `lines` from the given stream, each followed by a newline.
pub open spec fn stream_text(lines: Seq<(bool, Seq<char>)>, stderr: bool) -> Seq<char>
    decreases lines.len(),
{
    if lines.len() == 0 {
        Seq::empty()
    } else {
        let last = lines.last();
        let prev = stream_text(lines.drop_last(), stderr);
        if last.0 == stderr {
            prev + with_newline(last.1)
        } else {
            prev
        }
    }
}

/// Every given text followed by a newline, in order.
pub open spec fn joined_lines(texts: Seq<Seq<char>>) -> Seq<char>
    decreases texts.len(),
{
    if texts.len() == 0 {
        Seq::empty()
    } else {
        joined_lines(texts.drop_last()) + with_newline(texts.last())
    }
}

/// No line of `lines` mentions the sentinel.
pub open spec fn sentinel_free(lines: Seq<(bool, Seq<char>)>, sentinel: Seq<char>) -> bool {
    forall|i: int| 0 <= i < lines.len() ==> !contains_text(#[trigger] lines[i].1, sentinel)
}

/// Position of the first line that mentions the sentinel, or the number of lines.
pub open spec fn sentinel_index(lines: Seq<(bool, Seq<char>)>, sentinel: Seq<char>) -> nat
    decreases lines.len(),
{
    if lines.len() == 0 {
        0
    } else if contains_text(lines[0].1, sentinel) {
        0
    } else {
        1 + sentinel_index(lines.drop_first(), sentinel)
    }
}

/// What one command takes from the session's line stream: its standard
/// output, its standard error, and how many lines it consumed.
pub open spec fn drain(lines: Seq<(bool, Seq<char>)>, sentinel: Seq<char>) -> (Seq<char>, Seq<char>, nat) {
    let k = sentinel_index(lines, sentinel);
    let body = lines.take(k as int);
    let consumed = if k < lines.len() { k + 1 } else { k };
    (stream_text(body, false), stream_text(body, true), consumed)
}

/// The sentinel built from a token.
pub open spec fn sentinel_text(token: Seq<char>) -> Seq<char> {
    SENTINEL_PREFIX@ + token
}

/// A lowercase hexadecimal digit.
pub open spec fn is_lower_hex(c: char) -> bool {
    ('0' <= c && c <= '9') || ('a' <= c && c <= 'f')
}

/// A hyphenated lowercase UUID: 36 characters, hyphens at 8, 13, 18 and 23.
pub open spec fn is_uuid_text(t: Seq<char>) -> bool {
    &&& t.len() == 36
    &&& forall|i: int|
        0 <= i < 36 ==> if i == 8 || i == 13 || i == 18 || i == 23 {
            #[trigger] t[i] == '-'
        } else {
            is_lower_hex(t[i])
        }
}

/// The text written to the session's input for one command.
pub open spec fn framed_text(kind: ShellKind, command: Seq<char>, sentinel: Seq<char>) -> Seq<char> {
    match kind {
        ShellKind::PowerShell => command + "\nWrite-Output \""@ + sentinel + "\"\n"@,
        ShellKind::Cmd => command + " & echo "@ + sentinel + "\n"@,
    }
}

/// Relies on uuid's `Uuid::new_v4` and its `Display`: a random version-4 UUID
/// rendered in the hyphenated lowercase form.
#[verifier::external_body]
fn fresh_token() -> (r: String)
    ensures
        is_uuid_text(r@),
{
    uuid::Uuid::new_v4().to_string()
}

/// A new random client token or sentinel token.
pub fn new_token() -> (r: String)
    ensures
        is_uuid_text(r@),
{
    fresh_token()
}

/// The sentinel for `token`.
pub fn make_sentinel(token: &str) -> (r: String)
    ensures
        r@ == sentinel_text(token@),
{
    let mut s = String::from_str(SENTINEL_PREFIX);
    s.append(token);
    s
}

/// The command text followed by the statement that echoes the sentinel.
pub fn frame_command(kind: ShellKind, command: &str, sentinel: &str) -> (r: String)
    ensures
        r@ == framed_text(kind, command@, sentinel@),
{
    let mut s = String::from_str(command);
    match kind {
        ShellKind::PowerShell => {
            s.append("\nWrite-Output \"");
            s.append(sentinel);
            s.append("\"\n");
        },
        ShellKind::Cmd => {
            s.append(" & echo ");
            s.append(sentinel);
            s.append("\n");
        },
    }
    s
}

/// A shared-session command whose output is being collected until its
/// sentinel shows up. Lines are fed one at a time as they arrive.
pub struct PendingCommand {
    pub sentinel: String,
    pub stdout: String,
    pub stderr: String,
    pub finished: bool,
    /// The lines accumulated so far.
    pub seen: Ghost<Seq<(bool, Seq<char>)>>,
}

impl PendingCommand {
    /// The accumulators hold exactly the lines seen, none of which is the end marker.
    pub open spec fn wf(&self) -> bool {
        &&& self.stdout@ == stream_text(self.seen@, false)
        &&& self.stderr@ == stream_text(self.seen@, true)
        &&& sentinel_free(self.seen@, self.sentinel@)
    }

    /// Starts collecting for the given sentinel.
    pub fn new(sentinel: String) -> (r: PendingCommand)
        ensures
            r.wf(),
            r.sentinel == sentinel,
            !r.finished,
            r.seen@ == Seq::<(bool, Seq<char>)>::empty(),
    {
        PendingCommand {
            sentinel,
            stdout: String::new(),
            stderr: String::new(),
            finished: false,
            seen: Ghost(Seq::empty()),
        }
    }

    /// Starts a command: draws a fresh sentinel and returns the collector
    /// together with the text to write to the session's input.
    pub fn begin(kind: ShellKind, command: &str) -> (r: (PendingCommand, String))
        ensures
            r.0.wf(),
            !r.0.finished,
            r.0.seen@ == Seq::<(bool, Seq<char>)>::empty(),
            exists|t: Seq<char>| is_uuid_text(t) && r.0.sentinel@ == sentinel_text(t),
            r.1@ == framed_text(kind, command@, r.0.sentinel@),
    {
        let token = new_token();
        let sentinel = make_sentinel(token.as_str());
        let text = frame_command(kind, command, sentinel.as_str());
        (PendingCommand::new(sentinel), text)
    }

    /// Takes the next event of the session: a line, or `None` when the
    /// stream has closed. A line that mentions the sentinel, or the end of
    /// the stream, finishes the command; any other line is appended to the
    /// accumulator of its stream.
    pub fn accept(&mut self, event: Option<OutputLine>)
        requires
            old(self).wf(),
            !old(self).finished,
        ensures
            final(self).wf(),
            final(self).sentinel == old(self).sentinel,
            match event {
                None => final(self).finished && final(self).seen@ == old(self).seen@,
                Some(l) => if contains_text(l.text@, old(self).sentinel@) {
                    final(self).finished && final(self).seen@ == old(self).seen@
                } else {
                    !final(self).finished && final(self).seen@ == old(self).seen@.push(l@)
                },
            },
    {
        match event {
            None => {
                self.finished = true;
            },
            Some(l) => {
                if text_contains(l.text.as_str(), self.sentinel.as_str()) {
                    self.finished = true;
                } else {
                    let ghost prev = self.seen@;
                    let ghost next = prev.push(l@);
                    assert(next.drop_last() =~= prev);
                    assert(next.last() == l@);
                    proof {
                        reveal_strlit("\n");
                    }
                    if l.is_stderr {
                        self.stderr.append(l.text.as_str());
                        self.stderr.append("\n");
                    } else {
                        self.stdout.append(l.text.as_str());
                        self.stdout.append("\n");
                    }
                    self.seen = Ghost(next);
                    assert(self.stdout@ =~= stream_text(next, false));
                    assert(self.stderr@ =~= stream_text(next, true));
                    assert forall|i: int| 0 <= i < next.len() implies !contains_text(
                        #[trigger] next[i].1,
                        self.sentinel@,
                    ) by {
                        if i < prev.len() {
                            assert(next[i] == prev[i]);
                        }
                    }
                }
            },
        }
    }

    /// The output collected so far.
    pub fn result(&self) -> (r: CmdResult)
        requires
            self.wf(),
        ensures
            r.stdout@ == stream_text(self.seen@, false),
            r.stderr@ == stream_text(self.seen@, true),
    {
        CmdResult { stdout: self.stdout.clone(), stderr: self.stderr.clone() }
    }
}

/// The views of a list of lines.
pub open spec fn line_views(lines: Seq<OutputLine>) -> Seq<(bool, Seq<char>)> {
    lines.map_values(|l: OutputLine| l@)
}

proof fn lemma_sentinel_index_at(lines: Seq<(bool, Seq<char>)>, sentinel: Seq<char>, k: int)
    requires
        0 <= k <= lines.len(),
        sentinel_free(lines.take(k), sentinel),
        k < lines.len() ==> contains_text(lines[k].1, sentinel),
    ensures
        sentinel_index(lines, sentinel) == k,
    decreases k,
{
    if k > 0 {
        assert(lines.take(k)[0] == lines[0]);
        let rest = lines.drop_first();
        assert forall|i: int| 0 <= i < rest.take(k - 1).len() implies !contains_text(
            #[trigger] rest.take(k - 1)[i].1,
            sentinel,
        ) by {
            assert(rest.take(k - 1)[i] == lines.take(k)[i + 1]);
        }
        lemma_sentinel_index_at(rest, sentinel, k - 1);
    }
}

impl PendingCommand {
    /// Feeds a fresh collector the lines received so far, in order, until
    /// one mentions the sentinel. Returns how many lines it took; what it
    /// collected is exactly what `drain` says of those lines.
    pub fn feed(&mut self, lines: &Vec<OutputLine>) -> (used: usize)
        requires
            old(self).wf(),
            !old(self).finished,
            old(self).seen@ == Seq::<(bool, Seq<char>)>::empty(),
        ensures
            final(self).wf(),
            final(self).sentinel == old(self).sentinel,
            (final(self).stdout@, final(self).stderr@, used as nat) == drain(
                line_views(lines@),
                old(self).sentinel@,
            ),
    {
        let ghost views = line_views(lines@);
        let ghost sentinel = self.sentinel@;
        let mut i: usize = 0;
        assert(views.take(0) =~= Seq::<(bool, Seq<char>)>::empty());
        while i < lines.len() && !self.finished
            invariant
                i <= lines@.len(),
                views == line_views(lines@),
                self.wf(),
                self.sentinel@ == sentinel,
                self.sentinel == old(self).sentinel,
                !self.finished ==> self.seen@ == views.take(i as int),
                self.finished ==> i > 0 && contains_text(views[i - 1].1, sentinel)
                    && self.seen@ == views.take(i - 1),
            decreases lines@.len() - i + (if self.finished { 0int } else { 1int }),
        {
            let line = OutputLine { is_stderr: lines[i].is_stderr, text: lines[i].text.clone() };
            assert(line@ == views[i as int]);
            self.accept(Some(line));
            proof {
                if !self.finished {
                    assert(views.take(i as int).push(views[i as int]) =~= views.take(i + 1));
                }
            }
            i = i + 1;
        }
        proof {
            if self.finished {
                lemma_sentinel_index_at(views, sentinel, i - 1);
            } else {
                assert(views.take(i as int) =~= views);
                lemma_sentinel_index_at(views, sentinel, i as int);
            }
        }
        i
    }
}

/// Collects one command's output from lines already received: everything
/// up to the first line that mentions the sentinel, and how many lines
/// that took (the sentinel line included, when there is one).
pub fn drain_lines(lines: &Vec<OutputLine>, sentinel: &str) -> (r: (CmdResult, usize))
    ensures
        (r.0.stdout@, r.0.stderr@, r.1 as nat) == drain(line_views(lines@), sentinel@),
{
    let mut pending = PendingCommand::new(String::from_str(sentinel));
    let used = pending.feed(lines);
    (pending.result(), used)
}

/// Lines that all come from one stream.
pub open spec fn lines_of_stream(texts: Seq<Seq<char>>, stderr: bool) -> Seq<(bool, Seq<char>)> {
    texts.map_values(|t: Seq<char>| (stderr, t))
}

proof fn lemma_single_stream_text(texts: Seq<Seq<char>>, stderr: bool)
    ensures
        stream_text(lines_of_stream(texts, stderr), stderr) == joined_lines(texts),
        stream_text(lines_of_stream(texts, stderr), !stderr) == Seq::<char>::empty(),
    decreases texts.len(),
{
    if texts.len() > 0 {
        assert(lines_of_stream(texts, stderr).drop_last() =~= lines_of_stream(
            texts.drop_last(),
            stderr,
        ));
        lemma_single_stream_text(texts.drop_last(), stderr);
    }
}

/// A command whose lines before its end marker are `body` takes exactly
/// those lines, split by stream, and the end marker line; nothing after it.
pub proof fn lemma_drain_prefix(
    body: Seq<(bool, Seq<char>)>,
    end_line: (bool, Seq<char>),
    rest: Seq<(bool, Seq<char>)>,
    sentinel: Seq<char>,
)
    requires
        sentinel_free(body, sentinel),
        contains_text(end_line.1, sentinel),
    ensures
        drain(body + seq![end_line] + rest, sentinel) == (
            stream_text(body, false),
            stream_text(body, true),
            body.len() + 1,
        ),
{
    let lines = body + seq![end_line] + rest;
    assert(lines.take(body.len() as int) =~= body);
    assert(lines[body.len() as int] == end_line);
    lemma_sentinel_index_at(lines, sentinel, body.len() as int);
}

/// A command that prints N lines on one stream and then its sentinel yields
/// those N lines, each ended by a newline, on that stream, and nothing on
/// the other stream.
pub proof fn lemma_sentinel_framing(
    texts: Seq<Seq<char>>,
    stderr: bool,
    end_line: (bool, Seq<char>),
    rest: Seq<(bool, Seq<char>)>,
    sentinel: Seq<char>,
)
    requires
        forall|i: int| 0 <= i < texts.len() ==> !contains_text(#[trigger] texts[i], sentinel),
        contains_text(end_line.1, sentinel),
    ensures
        ({
            let r = drain(lines_of_stream(texts, stderr) + seq![end_line] + rest, sentinel);
            &&& r.2 == texts.len() + 1
            &&& stderr ==> r.0 == Seq::<char>::empty() && r.1 == joined_lines(texts)
            &&& !stderr ==> r.0 == joined_lines(texts) && r.1 == Seq::<char>::empty()
        }),
{
    let body = lines_of_stream(texts, stderr);
    assert forall|i: int| 0 <= i < body.len() implies !contains_text(
        #[trigger] body[i].1,
        sentinel,
    ) by {
        assert(body[i].1 == texts[i]);
    }
    lemma_drain_prefix(body, end_line, rest, sentinel);
    lemma_single_stream_text(texts, stderr);
}

/// Two commands run one after the other on one session never mix their
/// output: the first takes exactly the lines before its own sentinel, and
/// the second, starting where the first stopped, exactly the lines between
/// the two sentinels.
pub proof fn lemma_commands_do_not_interleave(
    first: Seq<(bool, Seq<char>)>,
    end1: (bool, Seq<char>),
    second: Seq<(bool, Seq<char>)>,
    end2: (bool, Seq<char>),
    rest: Seq<(bool, Seq<char>)>,
    sentinel1: Seq<char>,
    sentinel2: Seq<char>,
)
    requires
        sentinel_free(first, sentinel1),
        contains_text(end1.1, sentinel1),
        sentinel_free(second, sentinel2),
        contains_text(end2.1, sentinel2),
    ensures
        ({
            let stream = first + seq![end1] + second + seq![end2] + rest;
            let r1 = drain(stream, sentinel1);
            let r2 = drain(stream.skip(r1.2 as int), sentinel2);
            &&& r1 == (stream_text(first, false), stream_text(first, true), first.len() + 1)
            &&& r2 == (stream_text(second, false), stream_text(second, true), second.len() + 1)
        }),
{
    let stream = first + seq![end1] + second + seq![end2] + rest;
    let tail = second + seq![end2] + rest;
    assert(stream =~= first + seq![end1] + tail);
    lemma_drain_prefix(first, end1, tail, sentinel1);
    assert(stream.skip(first.len() + 1int) =~= tail);
    lemma_drain_prefix(second, end2, rest, sentinel2);
}

/// A program to start and its arguments.
pub struct ShellLaunch {
    pub program: String,
    pub args: Vec<String>,
}

/// The texts of a list of strings.
pub open spec fn texts_of(v: Seq<String>) -> Seq<Seq<char>> {
    v.map_values(|a: String| a@)
}

/// The executable of a shell kind.
pub open spec fn shell_program(kind: ShellKind) -> Seq<char> {
    match kind {
        ShellKind::PowerShell => "powershell.exe"@,
        ShellKind::Cmd => "cmd.exe"@,
    }
}

/// Arguments that keep a shell attached to its pipes without banner,
/// profile or echo.
pub open spec fn session_args(kind: ShellKind) -> Seq<Seq<char>> {
    match kind {
        ShellKind::PowerShell => seq!["-NoLogo"@, "-NoProfile"@, "-ExecutionPolicy"@, "Bypass"@],
        ShellKind::Cmd => seq!["/Q"@],
    }
}

/// Arguments that run one command in a fresh shell and exit.
pub open spec fn one_shot_args(kind: ShellKind, command: Seq<char>) -> Seq<Seq<char>> {
    match kind {
        ShellKind::PowerShell => seq![
            "-NoLogo"@,
            "-NoProfile"@,
            "-ExecutionPolicy"@,
            "Bypass"@,
            "-Command"@,
            command,
        ],
        ShellKind::Cmd => seq!["/C"@, command],
    }
}

fn push_arg(args: &mut Vec<String>, a: &str)
    ensures
        texts_of(final(args)@) == texts_of(old(args)@).push(a@),
{
    args.push(String::from_str(a));
    assert(texts_of(final(args)@) =~= texts_of(old(args)@).push(a@));
}

/// How to start the persistent session of a shell kind.
pub fn session_launch(kind: ShellKind) -> (r: ShellLaunch)
    ensures
        r.program@ == shell_program(kind),
        texts_of(r.args@) == session_args(kind),
{
    let mut args: Vec<String> = Vec::new();
    match kind {
        ShellKind::PowerShell => {
            push_arg(&mut args, "-NoLogo");
            push_arg(&mut args, "-NoProfile");
            push_arg(&mut args, "-ExecutionPolicy");
            push_arg(&mut args, "Bypass");
            assert(texts_of(args@) =~= session_args(kind));
            ShellLaunch { program: String::from_str("powershell.exe"), args }
        },
        ShellKind::Cmd => {
            push_arg(&mut args, "/Q");
            assert(texts_of(args@) =~= session_args(kind));
            ShellLaunch { program: String::from_str("cmd.exe"), args }
        },
    }
}

/// How to run `command` once in a fresh shell process.
pub fn one_shot_launch(kind: ShellKind, command: &str) -> (r: ShellLaunch)
    ensures
        r.program@ == shell_program(kind),
        texts_of(r.args@) == one_shot_args(kind, command@),
{
    let mut args: Vec<String> = Vec::new();
    match kind {
        ShellKind::PowerShell => {
            push_arg(&mut args, "-NoLogo");
            push_arg(&mut args, "-NoProfile");
            push_arg(&mut args, "-ExecutionPolicy");
            push_arg(&mut args, "Bypass");
            push_arg(&mut args, "-Command");
            push_arg(&mut args, command);
            assert(texts_of(args@) =~= one_shot_args(kind, command@));
            ShellLaunch { program: String::from_str("powershell.exe"), args }
        },
        ShellKind::Cmd => {
            push_arg(&mut args, "/C");
            push_arg(&mut args, command);
            assert(texts_of(args@) =~= one_shot_args(kind, command@));
            ShellLaunch { program: String::from_str("cmd.exe"), args }
        },
    }
}

/// Text decoded from bytes, invalid sequences replaced.
pub uninterp spec fn utf8_lossy(b: Seq<u8>) -> Seq<char>;

/// Relies on `String::from_utf8_lossy`: decodes the bytes as UTF-8, putting
/// U+FFFD in place of invalid sequences; no bytes give no text.
#[verifier::external_body]
fn lossy_text(b: &[u8]) -> (r: String)
    ensures
        r@ == utf8_lossy(b@),
        b@.len() == 0 ==> r@.len() == 0,
{
    String::from_utf8_lossy(b).into_owned()
}

/// Decodes bytes received from a file or a process as text.
pub fn decode_text(b: &[u8]) -> (r: String)
    ensures
        r@ == utf8_lossy(b@),
        b@.len() == 0 ==> r@.len() == 0,
{
    lossy_text(b)
}

impl CmdResult {
    /// The result of a one-shot command from the bytes it wrote.
    pub fn from_output(stdout: &[u8], stderr: &[u8]) -> (r: CmdResult)
        ensures
            r.stdout@ == utf8_lossy(stdout@),
            r.stderr@ == utf8_lossy(stderr@),
    {
        CmdResult { stdout: decode_text(stdout), stderr: decode_text(stderr) }
    }
}

/// The agent's shell state: the configured kind and whether the persistent
/// session has been started. A session, once started, stays for the life of
/// the process.
pub struct ShellManager {
    pub shell_kind: ShellKind,
    pub session_active: bool,
}

impl ShellManager {
    /// A manager with no session yet.
    pub fn new(shell_kind: ShellKind) -> (r: ShellManager)
        ensures
            r.shell_kind == shell_kind,
            !r.session_active,
    {
        ShellManager { shell_kind, session_active: false }
    }

    /// What must be started before a shared command can run: the session's
    /// launch if there is no session yet, nothing otherwise.
    pub fn ensure_shared(&self) -> (r: Option<ShellLaunch>)
        ensures
            self.session_active <==> r is None,
            r matches Some(l) ==> l.program@ == shell_program(self.shell_kind)
                && texts_of(l.args@) == session_args(self.shell_kind),
    {
        if self.session_active {
            None
        } else {
            Some(session_launch(self.shell_kind))
        }
    }

    /// Records that the session has been started.
    pub fn mark_started(&mut self)
        ensures
            final(self).session_active,
            final(self).shell_kind == old(self).shell_kind,
    {
        self.session_active = true;
    }

    /// How to run `command` once, outside the session.
    pub fn exec_new(&self, command: &str) -> (r: ShellLaunch)
        ensures
            r.program@ == shell_program(self.shell_kind),
            texts_of(r.args@) == one_shot_args(self.shell_kind, command@),
    {
        one_shot_launch(self.shell_kind, command)
    }

    /// Starts a shared command: the collector and the text to write.
    pub fn exec_shared(&self, command: &str) -> (r: (PendingCommand, String))
        ensures
            r.0.wf(),
            !r.0.finished,
            r.0.seen@ == Seq::<(bool, Seq<char>)>::empty(),
            exists|t: Seq<char>| is_uuid_text(t) && r.0.sentinel@ == sentinel_text(t),
            r.1@ == framed_text(self.shell_kind, command@, r.0.sentinel@),
    {
        PendingCommand::begin(self.shell_kind, command)
    }
}

} // verus!

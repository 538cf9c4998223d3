//! The command runner's bookkeeping: how a command is handed to the shell,
//! and how what is read from its two output channels becomes one transcript,
//! line by line, in the order of arrival.

use vstd::prelude::*;
use vstd::string::*;

verus! {

/// The program and the arguments that run `command` through the shell.
pub open spec fn shell_words(command: Seq<char>) -> Seq<Seq<char>> {
    seq!["sh"@, "-c"@, command]
}

/// The views of a list of words.
pub open spec fn word_views(words: Seq<String>) -> Seq<Seq<char>> {
    words.map_values(|word: String| word@)
}

/// The program and the arguments that run `command` through the shell: the
/// command goes to the shell as one argument, whatever it holds.
pub fn shell_invocation(command: &str) -> (words: Vec<String>)
    ensures
        word_views(words@) == shell_words(command@),
{
    let mut words: Vec<String> = Vec::new();
    words.push("sh".to_owned());
    words.push("-c".to_owned());
    words.push(command.to_owned());
    assert(word_views(words@) =~= shell_words(command@));
    words
}

/// One of the two output channels of a command.
#[derive(Clone, Copy, Debug, PartialEq, Eq)]
pub enum Channel {
    Stdout,
    Stderr,
}

/// What one read from a channel gave.
#[derive(Clone, Debug, PartialEq, Eq)]
pub enum Reading {
    /// A line, without its line ending.
    Line(String),
    /// The channel has ended.
    End,
    /// The read failed; the text says why.
    Failed(String),
}

pub enum ReadingView {
    Line(Seq<char>),
    End,
    Failed(Seq<char>),
}

impl View for Reading {
    type V = ReadingView;

    open spec fn view(&self) -> ReadingView {
        match self {
            Reading::Line(text) => ReadingView::Line(text@),
            Reading::End => ReadingView::End,
            Reading::Failed(why) => ReadingView::Failed(why@),
        }
    }
}

/// What is to be shown to the user after a read.
#[derive(Clone, Debug, PartialEq, Eq)]
pub enum Notice {
    /// Nothing.
    Quiet,
    /// A line of output, to be shown on the channel it came from.
    Echo { channel: Channel, line: String },
    /// A failed read, to be logged.
    Failure { channel: Channel, message: String },
}

pub enum NoticeView {
    Quiet,
    Echo { channel: Channel, line: Seq<char> },
    Failure { channel: Channel, message: Seq<char> },
}

impl View for Notice {
    type V = NoticeView;

    open spec fn view(&self) -> NoticeView {
        match self {
            Notice::Quiet => NoticeView::Quiet,
            Notice::Echo { channel, line } => NoticeView::Echo { channel: *channel, line: line@ },
            Notice::Failure { channel, message } => NoticeView::Failure {
                channel: *channel,
                message: message@,
            },
        }
    }
}

/// The state of a capture: the transcript so far, and which channels are
/// still read.
pub struct CaptureState {
    pub transcript: Seq<char>,
    pub stdout_open: bool,
    pub stderr_open: bool,
}

impl CaptureState {
    /// Whether `channel` is still read.
    pub open spec fn is_open(self, channel: Channel) -> bool {
        match channel {
            Channel::Stdout => self.stdout_open,
            Channel::Stderr => self.stderr_open,
        }
    }

    /// The state with `channel` closed.
    pub open spec fn close(self, channel: Channel) -> CaptureState {
        match channel {
            Channel::Stdout => CaptureState { stdout_open: false, ..self },
            Channel::Stderr => CaptureState { stderr_open: false, ..self },
        }
    }

    /// Whether both channels have ended.
    pub open spec fn is_done(self) -> bool {
        !self.stdout_open && !self.stderr_open
    }
}

/// The state in which a capture starts: nothing captured, both channels open.
pub open spec fn fresh() -> CaptureState {
    CaptureState { transcript: Seq::empty(), stdout_open: true, stderr_open: true }
}

/// The message that is logged when reading `channel` fails.
pub open spec fn failure_text(channel: Channel, why: Seq<char>) -> Seq<char> {
    match channel {
        Channel::Stdout => "Error reading stdout: "@ + why,
        Channel::Stderr => "Error reading stderr: "@ + why,
    }
}

/// The effect of one read. A line goes to the transcript with a line ending
/// and is echoed on its channel. The end of a channel closes it. A failed
/// read closes its channel too and is logged; the other channel is not
/// touched. What is read from a closed channel is passed over.
pub open spec fn observed(state: CaptureState, channel: Channel, reading: ReadingView) -> (
    CaptureState,
    NoticeView,
) {
    if !state.is_open(channel) {
        (state, NoticeView::Quiet)
    } else {
        match reading {
            ReadingView::Line(text) => (
                CaptureState { transcript: state.transcript + text + seq!['\n'], ..state },
                NoticeView::Echo { channel, line: text },
            ),
            ReadingView::End => (state.close(channel), NoticeView::Quiet),
            ReadingView::Failed(why) => (
                state.close(channel),
                NoticeView::Failure { channel, message: failure_text(channel, why) },
            ),
        }
    }
}

/// The capture of the output of one command.
pub struct Capture {
    transcript: String,
    stdout_open: bool,
    stderr_open: bool,
}

impl View for Capture {
    type V = CaptureState;

    closed spec fn view(&self) -> CaptureState {
        CaptureState {
            transcript: self.transcript@,
            stdout_open: self.stdout_open,
            stderr_open: self.stderr_open,
        }
    }
}

impl Capture {
    /// A capture with an empty transcript and both channels open.
    pub fn new() -> (capture: Capture)
        ensures
            capture@ == fresh(),
    {
        Capture { transcript: String::new(), stdout_open: true, stderr_open: true }
    }

    /// Whether `channel` is still to be read.
    pub fn is_open(&self, channel: Channel) -> (open: bool)
        ensures
            open == self@.is_open(channel),
    {
        match channel {
            Channel::Stdout => self.stdout_open,
            Channel::Stderr => self.stderr_open,
        }
    }

    /// Whether both channels have ended, so that the transcript is complete.
    pub fn is_done(&self) -> (done: bool)
        ensures
            done == self@.is_done(),
    {
        !self.stdout_open && !self.stderr_open
    }

    /// Takes in what one read from `channel` gave, and says what to show.
    pub fn observe(&mut self, channel: Channel, reading: Reading) -> (notice: Notice)
        ensures
            (final(self)@, notice@) == observed(old(self)@, channel, reading@),
    {
        if !self.is_open(channel) {
            return Notice::Quiet;
        }
        match reading {
            Reading::Line(line) => {
                self.transcript.append(line.as_str());
                self.transcript.append("\n");
                proof {
                    reveal_strlit("\n");
                    assert("\n"@ =~= seq!['\n']);
                }
                Notice::Echo { channel, line }
            },
            Reading::End => {
                self.close(channel);
                Notice::Quiet
            },
            Reading::Failed(why) => {
                self.close(channel);
                let mut message = match channel {
                    Channel::Stdout => String::from_str("Error reading stdout: "),
                    Channel::Stderr => String::from_str("Error reading stderr: "),
                };
                message.append(why.as_str());
                Notice::Failure { channel, message }
            },
        }
    }

    fn close(&mut self, channel: Channel)
        ensures
            final(self)@ == old(self)@.close(channel),
    {
        match channel {
            Channel::Stdout => {
                self.stdout_open = false;
            },
            Channel::Stderr => {
                self.stderr_open = false;
            },
        }
    }

    /// The transcript as far as it has been captured.
    pub fn transcript(&self) -> (text: &String)
        ensures
            text@ == self@.transcript,
    {
        &self.transcript
    }

    /// Ends the capture and hands out the transcript.
    pub fn into_transcript(self) -> (text: String)
        ensures
            text@ == self@.transcript,
    {
        self.transcript
    }
}

/// The state after a sequence of reads, taken in the order of arrival.
pub open spec fn captured(state: CaptureState, reads: Seq<(Channel, ReadingView)>) -> CaptureState
    decreases reads.len(),
{
    if reads.len() == 0 {
        state
    } else {
        observed(captured(state, reads.drop_last()), reads.last().0, reads.last().1).0
    }
}

/// The lines of `reads`, each with a line ending, one after the other.
pub open spec fn lines_of(reads: Seq<(Channel, ReadingView)>) -> Seq<char>
    decreases reads.len(),
{
    if reads.len() == 0 {
        Seq::empty()
    } else {
        let earlier = lines_of(reads.drop_last());
        match reads.last().1 {
            ReadingView::Line(text) => earlier + text + seq!['\n'],
            _ => earlier,
        }
    }
}

/// Whether every read of `reads` is a line.
pub open spec fn all_lines(reads: Seq<(Channel, ReadingView)>) -> bool {
    forall|k: int| 0 <= k < reads.len() ==> (#[trigger] reads[k]).1 is Line
}

/// While both channels deliver lines, the transcript is every line that was
/// read, in the order of arrival, whichever channel each came from: no line
/// is lost, and the lines of one channel keep their order.
pub proof fn lemma_transcript_keeps_every_line(reads: Seq<(Channel, ReadingView)>)
    requires
        all_lines(reads),
    ensures
        captured(fresh(), reads).transcript == lines_of(reads),
        captured(fresh(), reads).stdout_open,
        captured(fresh(), reads).stderr_open,
    decreases reads.len(),
{
    if reads.len() > 0 {
        let earlier = reads.drop_last();
        assert forall|k: int| 0 <= k < earlier.len() implies (#[trigger] earlier[k]).1 is Line by {
            assert(earlier[k] == reads[k]);
        }
        lemma_transcript_keeps_every_line(earlier);
        assert(reads.last() == reads[reads.len() - 1]);
    }
}

} // verus!

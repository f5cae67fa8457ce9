//! Opening or previewing a file: the command line that a command and a path
//! make, and the resolution that goes from the pattern layers to the media
//! type layers to the system's default opener.

use vstd::prelude::*;
use vstd::string::*;
use crate::text::{owned, same_text};
use crate::media_type::{MediaType, is_wildcard_name};
use crate::mime_helpers::{
    SniffOutcome,
    TypeError,
    sniffed_name,
    sniffed_type,
    name_of,
    texts_of,
    extension_type,
    portable_path,
    path_guess,
    guessed_name,
};
use crate::config::open_config::{
    MimeCommands,
    RegexCommands,
    OpenConfig,
    PatternChoice,
    PossibleCommands,
    matching_commands,
    narrowed,
};

verus! {

/// Whether the placeholder `$f` stands at a position of a command.
pub open spec fn placeholder_at(cmd: Seq<char>, i: int) -> bool {
    0 <= i && i + 1 < cmd.len() && cmd[i] == '$' && cmd[i + 1] == 'f'
}

/// Whether a command holds the placeholder.
pub open spec fn has_placeholder(cmd: Seq<char>) -> bool {
    exists|i: int| placeholder_at(cmd, i)
}

/// A command with every placeholder replaced by the path, from left to
/// right.
pub open spec fn substituted(cmd: Seq<char>, path: Seq<char>) -> Seq<char>
    decreases cmd.len(),
{
    if cmd.len() == 0 {
        cmd
    } else if placeholder_at(cmd, 0) {
        path + substituted(cmd.skip(2), path)
    } else {
        seq![cmd[0]] + substituted(cmd.skip(1), path)
    }
}

/// The command line for a path: the path in place of every placeholder,
/// or, where the command holds none, the command, one space and the path.
pub open spec fn full_command(cmd: Seq<char>, path: Seq<char>) -> Seq<char> {
    if has_placeholder(cmd) {
        substituted(cmd, path)
    } else {
        cmd + seq![' '] + path
    }
}

/// Builds the command line that a command and a path make.
pub fn command_line(cmd: &str, path: &str) -> (r: String)
    ensures
        r@ == full_command(cmd@, path@),
{
    let n: usize = cmd.unicode_len();
    let mut out = String::new();
    let mut found: bool = false;
    let ghost mut at: int = 0;
    let mut i: usize = 0;
    proof {
        assert(cmd@.skip(0) =~= cmd@);
        assert(out@ + substituted(cmd@, path@) =~= substituted(cmd@, path@));
    }
    while i < n
        invariant
            n == cmd@.len(),
            i <= n,
            out@ + substituted(cmd@.skip(i as int), path@) == substituted(cmd@, path@),
            found ==> placeholder_at(cmd@, at),
            !found ==> forall|j: int| 0 <= j < i ==> !placeholder_at(cmd@, j),
        decreases n - i,
    {
        let ghost rest = cmd@.skip(i as int);
        let ghost before = out@;
        if i + 1 < n && cmd.get_char(i) == '$' && cmd.get_char(i + 1) == 'f' {
            out.append(path);
            proof {
                assert(placeholder_at(rest, 0));
                assert(rest.skip(2) =~= cmd@.skip(i + 2));
                assert(out@ + substituted(cmd@.skip(i + 2), path@) =~= before + (path@
                    + substituted(rest.skip(2), path@)));
                if !found {
                    at = i as int;
                }
            }
            found = true;
            i += 2;
        } else {
            out.append(cmd.substring_char(i, i + 1));
            proof {
                assert(!placeholder_at(rest, 0));
                assert(!placeholder_at(cmd@, i as int));
                assert(rest.skip(1) =~= cmd@.skip(i + 1));
                assert(cmd@.subrange(i as int, i + 1) =~= seq![rest[0]]);
                assert(out@ + substituted(cmd@.skip(i + 1), path@) =~= before + (seq![rest[0]]
                    + substituted(rest.skip(1), path@)));
            }
            i += 1;
        }
    }
    proof {
        assert(cmd@.skip(n as int) =~= Seq::<char>::empty());
        assert(out@ =~= substituted(cmd@, path@));
    }
    if found {
        out
    } else {
        assert(!has_placeholder(cmd@));
        let mut line = owned(cmd);
        line.append(" ");
        line.append(path);
        proof {
            reveal_strlit(" ");
            assert(" "@ =~= seq![' ']);
        }
        line
    }
}

/// How running a command ended.
#[derive(Debug, Clone, Copy, PartialEq, Eq, Structural)]
pub enum RunOutcome {
    /// The process exited in time, with this status.
    Exited(i32),
    /// The process did not exit in time.
    TimedOut,
    /// The process could not be started.
    SpawnFailed,
}

/// Why a command counts as failed.
#[derive(Debug, Clone, Copy, PartialEq, Eq, Structural)]
pub enum CommandFailed {
    /// The process exited with a status other than 0.
    NonZeroExit,
    /// The process did not exit in time.
    ExecutionTimedOut,
    /// The process could not be started.
    SpawnFailed,
}

/// Whether a run succeeded: only an exit in time with status 0 does.
pub open spec fn run_result(outcome: RunOutcome) -> Result<(), CommandFailed> {
    match outcome {
        RunOutcome::Exited(code) => if code == 0 {
            Ok(())
        } else {
            Err(CommandFailed::NonZeroExit)
        },
        RunOutcome::TimedOut => Err(CommandFailed::ExecutionTimedOut),
        RunOutcome::SpawnFailed => Err(CommandFailed::SpawnFailed),
    }
}

/// Classifies how a run ended.
pub fn command_result(outcome: RunOutcome) -> (r: Result<(), CommandFailed>)
    ensures
        r == run_result(outcome),
{
    match outcome {
        RunOutcome::Exited(code) => if code == 0 {
            Ok(())
        } else {
            Err(CommandFailed::NonZeroExit)
        },
        RunOutcome::TimedOut => Err(CommandFailed::ExecutionTimedOut),
        RunOutcome::SpawnFailed => Err(CommandFailed::SpawnFailed),
    }
}

/// What is asked for when a file is opened.
#[derive(Debug)]
pub struct OpenOptions {
    /// The file to open.
    pub path: String,
    /// Whether someone can be asked to choose among several commands.
    pub interactive: bool,
    /// Whether to preview the file instead of opening it.
    pub preview: bool,
}

/// Where a resolution stands.
#[derive(Debug, Clone, Copy, PartialEq, Eq, Structural)]
pub enum Stage {
    /// Nothing was tried yet.
    Ready,
    /// A command from a pattern layer is running.
    RanPattern,
    /// Someone is choosing among the commands of a pattern layer.
    Choosing,
    /// The file's content is being inspected.
    Sniffing,
    /// A command from a media type layer is running.
    RanType,
    /// The system's default opener is running.
    OpeningDefault,
    /// The resolution is over.
    Finished,
}

/// What happened outside since the last step.
#[derive(Debug)]
pub enum Event {
    /// The resolution is to begin.
    Start,
    /// The command that was to be run ended.
    CommandFinished(RunOutcome),
    /// Someone chose this command.
    Chosen(String),
    /// Nobody chose, or there is no one to ask.
    ChoiceCancelled,
    /// The inspection of the file's content ended.
    Sniffed(SniffOutcome),
    /// The default opener ended, well or not.
    DefaultOpened(bool),
}

/// Why a resolution failed.
#[derive(Debug, Clone, Copy, PartialEq, Eq, Structural)]
pub enum OpenError {
    /// No media type could be found for the path.
    TypeUnresolvable(TypeError),
    /// The default opener failed.
    DefaultOpenFailed,
    /// An event came that the stage does not wait for.
    OutOfTurn,
}

/// What is to be done outside next.
#[derive(Debug)]
pub enum Action {
    /// Run this command line and report how it ended.
    Run(String),
    /// Let someone choose among these commands.
    Choose(Vec<String>),
    /// Inspect the file's content and report the guess.
    Sniff,
    /// Hand the path to the system's default opener.
    OpenDefault,
    /// Nothing more: the resolution ended so.
    Done(Result<(), OpenError>),
}

/// An action as the contracts see it.
pub enum Plan {
    Run(Seq<char>),
    Choose(Seq<Seq<char>>),
    Sniff,
    OpenDefault,
    Done(Result<(), OpenError>),
}

impl View for Action {
    type V = Plan;

    open spec fn view(&self) -> Plan {
        match *self {
            Action::Run(s) => Plan::Run(s@),
            Action::Choose(v) => Plan::Choose(texts_of(v@)),
            Action::Sniff => Plan::Sniff,
            Action::OpenDefault => Plan::OpenDefault,
            Action::Done(r) => Plan::Done(r),
        }
    }
}

/// Where a resolution stands, as the contracts see it: the stage, the next
/// layer to try, the media type once it is known, and the commands that
/// were last offered for a choice.
pub struct Progress {
    pub stage: Stage,
    pub cursor: int,
    pub media_type: Option<(Seq<char>, Seq<char>)>,
    pub candidates: Seq<Seq<char>>,
}

/// The first pattern layer at or after `from` that gives something to do:
/// one matching command, or several with someone to choose. The number of
/// layers where there is none.
pub open spec fn pattern_hit(
    layers: Seq<Seq<(Seq<char>, Seq<char>)>>,
    path: Seq<char>,
    interactive: bool,
    from: int,
) -> int
    decreases layers.len() - from,
{
    if from < 0 || from >= layers.len() {
        layers.len() as int
    } else {
        let m = matching_commands(layers[from], path);
        if m.len() == 1 || (m.len() > 1 && interactive) {
            from
        } else {
            pattern_hit(layers, path, interactive, from + 1)
        }
    }
}

/// The first media type layer at or after `from` that gives a command for
/// the media type; the number of layers where there is none.
pub open spec fn type_hit(
    layers: Seq<Map<(Seq<char>, Seq<char>), Seq<char>>>,
    name: (Seq<char>, Seq<char>),
    from: int,
) -> int
    decreases layers.len() - from,
{
    if from < 0 || from >= layers.len() {
        layers.len() as int
    } else if narrowed(layers[from], name).is_some() {
        from
    } else {
        type_hit(layers, name, from + 1)
    }
}

/// The views of a list of pattern layers.
pub open spec fn pattern_views(v: Seq<RegexCommands>) -> Seq<Seq<(Seq<char>, Seq<char>)>> {
    v.map_values(|l: RegexCommands| l@)
}

/// The views of a list of media type layers.
pub open spec fn type_views(v: Seq<MimeCommands>) -> Seq<Map<(Seq<char>, Seq<char>), Seq<char>>> {
    v.map_values(|l: MimeCommands| l@)
}

/// A copy of a list of texts.
fn copy_texts(list: &Vec<String>) -> (r: Vec<String>)
    ensures
        texts_of(r@) == texts_of(list@),
{
    let mut copy: Vec<String> = Vec::new();
    let mut i: usize = 0;
    while i < list.len()
        invariant
            i <= list.len(),
            texts_of(copy@) == texts_of(list@).take(i as int),
        decreases list.len() - i,
    {
        let ghost before = texts_of(copy@);
        copy.push(list[i].clone());
        proof {
            assert(texts_of(copy@) =~= before.push(list[i as int]@));
            assert(texts_of(list@).take(i + 1) =~= texts_of(list@).take(i as int).push(
                list[i as int]@,
            ));
        }
        i += 1;
    }
    proof {
        assert(texts_of(list@).take(list.len() as int) =~= texts_of(list@));
    }
    copy
}

/// Whether a list of texts holds a text.
fn holds_text(list: &Vec<String>, s: &str) -> (r: bool)
    ensures
        r == texts_of(list@).contains(s@),
{
    let mut i: usize = 0;
    while i < list.len()
        invariant
            i <= list.len(),
            forall|j: int| 0 <= j < i ==> texts_of(list@)[j] != s@,
        decreases list.len() - i,
    {
        if same_text(list[i].as_str(), s) {
            assert(texts_of(list@)[i as int] == s@);
            return true;
        }
        i += 1;
    }
    false
}

/// The resolution of one path: what to try, and how far it has come.
pub struct Resolver {
    patterns: Vec<RegexCommands>,
    types: Vec<MimeCommands>,
    path: String,
    interactive: bool,
    guess: Option<MediaType>,
    stage: Stage,
    cursor: usize,
    media_type: Option<MediaType>,
    candidates: Vec<String>,
}

impl Resolver {
    #[verifier::type_invariant]
    spec fn inv(self) -> bool {
        self.stage == Stage::RanType ==> self.media_type.is_some() && !is_wildcard_name(
            self.media_type.unwrap()@,
        )
    }

    /// The pattern layers, in order.
    pub closed spec fn patterns(&self) -> Seq<Seq<(Seq<char>, Seq<char>)>> {
        pattern_views(self.patterns@)
    }

    /// The media type layers, in order.
    pub closed spec fn types(&self) -> Seq<Map<(Seq<char>, Seq<char>), Seq<char>>> {
        type_views(self.types@)
    }

    /// The path that is resolved.
    pub closed spec fn path(&self) -> Seq<char> {
        self.path@
    }

    /// Whether someone can be asked to choose.
    pub closed spec fn interactive(&self) -> bool {
        self.interactive
    }

    /// The media type that the path's extension suggests.
    pub closed spec fn guess(&self) -> Option<(Seq<char>, Seq<char>)> {
        name_of(self.guess)
    }

    /// How far the resolution has come.
    pub closed spec fn progress(&self) -> Progress {
        Progress {
            stage: self.stage,
            cursor: self.cursor as int,
            media_type: name_of(self.media_type),
            candidates: texts_of(self.candidates@),
        }
    }

    /// Whether two resolutions try the same things for the same path.
    pub open spec fn same_task(&self, other: &Resolver) -> bool {
        &&& self.patterns() == other.patterns()
        &&& self.types() == other.types()
        &&& self.path() == other.path()
        &&& self.interactive() == other.interactive()
        &&& self.guess() == other.guess()
    }

    /// The end of a resolution.
    pub open spec fn finish(&self, result: Result<(), OpenError>) -> (Progress, Plan) {
        (
            Progress {
                stage: Stage::Finished,
                cursor: 0,
                media_type: self.progress().media_type,
                candidates: self.progress().candidates,
            },
            Plan::Done(result),
        )
    }

    /// Trying the media type layers from one of them on: the first that
    /// gives a command has it run; where none does, the default opener is
    /// next.
    pub open spec fn try_types(&self, name: (Seq<char>, Seq<char>), from: int) -> (Progress, Plan) {
        let j = type_hit(self.types(), name, from);
        if j < self.types().len() {
            (
                Progress {
                    stage: Stage::RanType,
                    cursor: j + 1,
                    media_type: Some(name),
                    candidates: self.progress().candidates,
                },
                Plan::Run(full_command(narrowed(self.types()[j], name).unwrap(), self.path())),
            )
        } else {
            (
                Progress {
                    stage: Stage::OpeningDefault,
                    cursor: 0,
                    media_type: Some(name),
                    candidates: self.progress().candidates,
                },
                Plan::OpenDefault,
            )
        }
    }

    /// Trying the pattern layers from one of them on: the first that gives
    /// one command has it run, the first that gives several has someone
    /// choose, if someone can. Where none is left, the media type is due:
    /// a concrete guess from the extension goes to the media type layers,
    /// otherwise the file's content is to be inspected.
    pub open spec fn try_patterns(&self, from: int) -> (Progress, Plan) {
        let j = pattern_hit(self.patterns(), self.path(), self.interactive(), from);
        if j < self.patterns().len() {
            let m = matching_commands(self.patterns()[j], self.path());
            if m.len() == 1 {
                (
                    Progress {
                        stage: Stage::RanPattern,
                        cursor: j + 1,
                        media_type: self.progress().media_type,
                        candidates: self.progress().candidates,
                    },
                    Plan::Run(full_command(m[0], self.path())),
                )
            } else {
                (
                    Progress {
                        stage: Stage::Choosing,
                        cursor: j + 1,
                        media_type: self.progress().media_type,
                        candidates: m,
                    },
                    Plan::Choose(m),
                )
            }
        } else if self.guess().is_some() && !is_wildcard_name(self.guess().unwrap()) {
            self.try_types(self.guess().unwrap(), 0)
        } else {
            (
                Progress {
                    stage: Stage::Sniffing,
                    cursor: 0,
                    media_type: self.progress().media_type,
                    candidates: self.progress().candidates,
                },
                Plan::Sniff,
            )
        }
    }

    /// The step that an event calls for: where the resolution stands
    /// afterwards, and what is to be done next. A choice counts only where
    /// it is one of the commands that were offered; any other answer is
    /// taken as no choice.
    pub open spec fn next(&self, event: Event) -> (Progress, Plan) {
        match (self.progress().stage, event) {
            (Stage::Ready, Event::Start) => self.try_patterns(0),
            (Stage::RanPattern, Event::CommandFinished(outcome)) => if run_result(outcome).is_ok() {
                self.finish(Ok(()))
            } else {
                self.try_patterns(self.progress().cursor)
            },
            (Stage::Choosing, Event::Chosen(command)) => if self.progress().candidates.contains(
                command@,
            ) {
                (
                    Progress {
                        stage: Stage::RanPattern,
                        cursor: self.progress().cursor,
                        media_type: self.progress().media_type,
                        candidates: self.progress().candidates,
                    },
                    Plan::Run(full_command(command@, self.path())),
                )
            } else {
                self.try_patterns(self.progress().cursor)
            },
            (Stage::Choosing, Event::ChoiceCancelled) => self.try_patterns(self.progress().cursor),
            (Stage::Sniffing, Event::Sniffed(sniff)) => match sniffed_name(sniff) {
                Ok(name) => self.try_types(name, 0),
                Err(e) => self.finish(Err(OpenError::TypeUnresolvable(e))),
            },
            (Stage::RanType, Event::CommandFinished(outcome)) => if run_result(outcome).is_ok() {
                self.finish(Ok(()))
            } else {
                self.try_types(self.progress().media_type.unwrap(), self.progress().cursor)
            },
            (Stage::OpeningDefault, Event::DefaultOpened(well)) => if well {
                self.finish(Ok(()))
            } else {
                self.finish(Err(OpenError::DefaultOpenFailed))
            },
            _ => self.finish(Err(OpenError::OutOfTurn)),
        }
    }

    /// A resolution that has not begun, for the layers that the options
    /// pick and with the media type that the path's extension suggests.
    pub fn with_guess(options: OpenOptions, config: OpenConfig, guess: Option<MediaType>) -> (r:
        Resolver)
        ensures
            r.patterns() == pattern_views(
                if options.preview {
                    config.preview_regex@
                } else {
                    config.open_regex@
                },
            ),
            r.types() == type_views(
                if options.preview {
                    config.preview@
                } else {
                    config.open@
                },
            ),
            r.path() == options.path@,
            r.interactive() == options.interactive,
            r.guess() == name_of(guess),
            r.progress() == (Progress {
                stage: Stage::Ready,
                cursor: 0,
                media_type: None,
                candidates: Seq::empty(),
            }),
    {
        let preview = options.preview;
        let candidates: Vec<String> = Vec::new();
        assert(texts_of(candidates@) =~= Seq::<Seq<char>>::empty());
        let (types, patterns) = if preview {
            config.get_preview()
        } else {
            config.get_open()
        };
        Resolver {
            patterns,
            types,
            path: options.path,
            interactive: options.interactive,
            guess,
            stage: Stage::Ready,
            cursor: 0,
            media_type: None,
            candidates,
        }
    }

    /// A resolution that has not begun. The media type that the path's
    /// extension suggests is looked up here.
    pub fn new(options: OpenOptions, config: OpenConfig) -> (r: Resolver)
        ensures
            r.patterns() == pattern_views(
                if options.preview {
                    config.preview_regex@
                } else {
                    config.open_regex@
                },
            ),
            r.types() == type_views(
                if options.preview {
                    config.preview@
                } else {
                    config.open@
                },
            ),
            r.path() == options.path@,
            r.interactive() == options.interactive,
            portable_path(options.path@) ==> r.guess() == guessed_name(path_guess(options.path@)),
            r.progress() == (Progress {
                stage: Stage::Ready,
                cursor: 0,
                media_type: None,
                candidates: Seq::empty(),
            }),
    {
        let guess = extension_type(options.path.as_str());
        Resolver::with_guess(options, config, guess)
    }

    /// The stage that the resolution is in.
    pub fn stage(&self) -> (r: Stage)
        ensures
            r == self.progress().stage,
    {
        self.stage
    }

    /// Tries the media type layers from one of them on.
    fn scan_types(&mut self, name: MediaType, from: usize) -> (a: Action)
        requires
            !is_wildcard_name(name@),
        ensures
            final(self).same_task(old(self)),
            final(self).progress() == old(self).try_types(name@, from as int).0,
            a@ == old(self).try_types(name@, from as int).1,
    {
        let mut j: usize = from;
        while j < self.types.len()
            invariant
                *self == *old(self),
                !is_wildcard_name(name@),
                type_hit(self.types(), name@, from as int) == type_hit(
                    self.types(),
                    name@,
                    j as int,
                ),
            decreases self.types.len() - j,
        {
            assert(self.types()[j as int] == self.types[j as int]@);
            match self.types[j].find_correct_command(&name) {
                Some(command) => {
                    let line = command_line(command.as_str(), self.path.as_str());
                    self.media_type = Some(name);
                    self.cursor = j + 1;
                    self.stage = Stage::RanType;
                    return Action::Run(line);
                },
                None => {},
            }
            j += 1;
        }
        self.stage = Stage::OpeningDefault;
        self.media_type = Some(name);
        self.cursor = 0;
        Action::OpenDefault
    }

    /// Tries the pattern layers from one of them on, and goes on to the
    /// media type where none is left.
    fn scan_patterns(&mut self, from: usize) -> (a: Action)
        requires
            old(self).progress().stage != Stage::RanType,
        ensures
            final(self).same_task(old(self)),
            final(self).progress() == old(self).try_patterns(from as int).0,
            a@ == old(self).try_patterns(from as int).1,
    {
        let mut j: usize = from;
        while j < self.patterns.len()
            invariant
                *self == *old(self),
                self.progress().stage != Stage::RanType,
                pattern_hit(self.patterns(), self.path(), self.interactive(), from as int)
                    == pattern_hit(self.patterns(), self.path(), self.interactive(), j as int),
            decreases self.patterns.len() - j,
        {
            assert(self.patterns()[j as int] == self.patterns[j as int]@);
            match self.patterns[j].find_correct_command(&self.path) {
                PatternChoice::Single(command) => {
                    let line = command_line(command.as_str(), self.path.as_str());
                    self.cursor = j + 1;
                    self.stage = Stage::RanPattern;
                    return Action::Run(line);
                },
                PatternChoice::Ambiguous(commands) => {
                    if self.interactive {
                        self.cursor = j + 1;
                        self.stage = Stage::Choosing;
                        self.candidates = copy_texts(&commands);
                        return Action::Choose(commands);
                    }
                },
                PatternChoice::NoMatch => {},
            }
            j += 1;
        }
        let concrete: Option<MediaType> = match &self.guess {
            Some(m) => if m.is_wildcard() {
                None
            } else {
                Some(m.duplicate())
            },
            None => None,
        };
        match concrete {
            Some(name) => self.scan_types(name, 0),
            None => {
                self.stage = Stage::Sniffing;
                self.cursor = 0;
                Action::Sniff
            },
        }
    }

    /// Ends the resolution.
    fn end(&mut self, result: Result<(), OpenError>) -> (a: Action)
        ensures
            final(self).same_task(old(self)),
            final(self).progress() == old(self).finish(result).0,
            a@ == old(self).finish(result).1,
    {
        self.stage = Stage::Finished;
        self.cursor = 0;
        Action::Done(result)
    }

    /// Takes one step: from where the resolution stands and what happened
    /// outside to where it stands next and what is to be done. The layers,
    /// the path and the guess stay as they are.
    pub fn step(&mut self, event: Event) -> (a: Action)
        ensures
            final(self).same_task(old(self)),
            final(self).progress() == old(self).next(event).0,
            a@ == old(self).next(event).1,
    {
        proof {
            use_type_invariant(&*self);
        }
        match (self.stage, event) {
            (Stage::Ready, Event::Start) => self.scan_patterns(0),
            (Stage::RanPattern, Event::CommandFinished(outcome)) => {
                if command_result(outcome).is_ok() {
                    self.end(Ok(()))
                } else {
                    let from = self.cursor;
                    self.scan_patterns(from)
                }
            },
            (Stage::Choosing, Event::Chosen(command)) => {
                if holds_text(&self.candidates, command.as_str()) {
                    let line = command_line(command.as_str(), self.path.as_str());
                    self.stage = Stage::RanPattern;
                    Action::Run(line)
                } else {
                    let from = self.cursor;
                    self.scan_patterns(from)
                }
            },
            (Stage::Choosing, Event::ChoiceCancelled) => {
                let from = self.cursor;
                self.scan_patterns(from)
            },
            (Stage::Sniffing, Event::Sniffed(sniff)) => match sniffed_type(&sniff) {
                Ok(name) => self.scan_types(name, 0),
                Err(e) => self.end(Err(OpenError::TypeUnresolvable(e))),
            },
            (Stage::RanType, Event::CommandFinished(outcome)) => {
                if command_result(outcome).is_ok() {
                    self.end(Ok(()))
                } else {
                    let from = self.cursor;
                    let name = match &self.media_type {
                        Some(m) => m.duplicate(),
                        None => {
                            return self.end(Err(OpenError::OutOfTurn));
                        },
                    };
                    self.scan_types(name, from)
                }
            },
            (Stage::OpeningDefault, Event::DefaultOpened(well)) => {
                if well {
                    self.end(Ok(()))
                } else {
                    self.end(Err(OpenError::DefaultOpenFailed))
                }
            },
            _ => self.end(Err(OpenError::OutOfTurn)),
        }
    }
}

impl OpenOptions {
    /// Begins the resolution of the path: the state to go on from, and
    /// the first thing to do.
    pub fn run(self, config: OpenConfig) -> (r: (Resolver, Action))
        ensures
            r.0.patterns() == pattern_views(
                if self.preview {
                    config.preview_regex@
                } else {
                    config.open_regex@
                },
            ),
            r.0.types() == type_views(
                if self.preview {
                    config.preview@
                } else {
                    config.open@
                },
            ),
            r.0.path() == self.path@,
            r.0.interactive() == self.interactive,
            portable_path(self.path@) ==> r.0.guess() == guessed_name(path_guess(self.path@)),
            r.0.progress() == r.0.try_patterns(0).0,
            r.1@ == r.0.try_patterns(0).1,
    {
        let mut resolver = Resolver::new(self, config);
        let action = resolver.step(Event::Start);
        (resolver, action)
    }
}

/// A resolution that has not begun runs the one command of the first
/// pattern layer that gives one, whatever the media type layers hold and
/// whatever the path's media type is.
pub proof fn lemma_pattern_command_runs_first(r: Resolver)
    requires
        r.progress().stage == Stage::Ready,
        pattern_hit(r.patterns(), r.path(), r.interactive(), 0) < r.patterns().len(),
        matching_commands(
            r.patterns()[pattern_hit(r.patterns(), r.path(), r.interactive(), 0)],
            r.path(),
        ).len() == 1,
    ensures
        r.next(Event::Start).0.stage == Stage::RanPattern,
        r.next(Event::Start).1 == Plan::Run(
            full_command(
                matching_commands(
                    r.patterns()[pattern_hit(r.patterns(), r.path(), r.interactive(), 0)],
                    r.path(),
                )[0],
                r.path(),
            ),
        ),
{
}

/// A command that succeeds ends the resolution with success: no further
/// layer is tried and the default opener is not asked.
pub proof fn lemma_success_finishes(r: Resolver, outcome: RunOutcome)
    requires
        r.progress().stage == Stage::RanPattern || r.progress().stage == Stage::RanType,
        run_result(outcome).is_ok(),
    ensures
        r.next(Event::CommandFinished(outcome)).0.stage == Stage::Finished,
        r.next(Event::CommandFinished(outcome)).1 == Plan::Done(Ok(())),
{
}

/// A layer that gives something to do lies at or after the layer that the
/// search began with.
pub proof fn lemma_hits_lie_ahead(r: Resolver, name: (Seq<char>, Seq<char>), from: int)
    requires
        0 <= from,
    ensures
        from <= r.patterns().len() ==> from <= pattern_hit(
            r.patterns(),
            r.path(),
            r.interactive(),
            from,
        ) <= r.patterns().len(),
        from <= r.types().len() ==> from <= type_hit(r.types(), name, from) <= r.types().len(),
    decreases r.patterns().len() + r.types().len() - from,
{
    if from < r.patterns().len() || from < r.types().len() {
        lemma_hits_lie_ahead(r, name, from + 1);
    }
}

/// Every command that is run, and every choice that is offered, comes
/// from a later layer than the one before: the cursor only moves forward,
/// so a resolution tries each layer at most once.
pub proof fn lemma_cursor_moves_forward(r: Resolver, name: (Seq<char>, Seq<char>), from: int)
    requires
        0 <= from,
    ensures
        r.try_patterns(from).0.stage == Stage::RanPattern || r.try_patterns(from).0.stage
            == Stage::Choosing ==> from < r.try_patterns(from).0.cursor <= r.patterns().len(),
        r.try_types(name, from).0.stage == Stage::RanType ==> from < r.try_types(
            name,
            from,
        ).0.cursor <= r.types().len(),
{
    lemma_hits_lie_ahead(r, name, from);
    if r.guess().is_some() {
        lemma_hits_lie_ahead(r, r.guess().unwrap(), 0);
    }
}

/// A command that fails has the layers after it tried.
pub proof fn lemma_failure_goes_on(r: Resolver, outcome: RunOutcome)
    requires
        run_result(outcome).is_err(),
    ensures
        r.progress().stage == Stage::RanPattern ==> r.next(Event::CommandFinished(outcome))
            == r.try_patterns(r.progress().cursor),
        r.progress().stage == Stage::RanType ==> r.next(Event::CommandFinished(outcome))
            == r.try_types(r.progress().media_type.unwrap(), r.progress().cursor),
{
}

/// Without pattern layers and without a guess from the extension, the
/// file's content is inspected first.
pub proof fn lemma_unknown_extension_is_sniffed(r: Resolver)
    requires
        r.progress().stage == Stage::Ready,
        r.patterns().len() == 0,
        r.guess().is_none(),
    ensures
        r.next(Event::Start).0.stage == Stage::Sniffing,
        r.next(Event::Start).1 == Plan::Sniff,
{
}

/// Once the content was inspected: a media type for which no layer has a
/// command goes to the default opener, and a report that gives no media
/// type ends the resolution with that error.
pub proof fn lemma_after_sniffing(r: Resolver, sniff: SniffOutcome)
    requires
        r.progress().stage == Stage::Sniffing,
    ensures
        sniffed_name(sniff) matches Ok(name) && type_hit(r.types(), name, 0) >= r.types().len()
            ==> r.next(Event::Sniffed(sniff)).0.stage == Stage::OpeningDefault && r.next(
            Event::Sniffed(sniff),
        ).1 == Plan::OpenDefault,
        sniffed_name(sniff) matches Err(e) ==> r.next(Event::Sniffed(sniff)).0.stage
            == Stage::Finished && r.next(Event::Sniffed(sniff)).1 == Plan::Done(
            Err(OpenError::TypeUnresolvable(e)),
        ),
{
}

} // verus!

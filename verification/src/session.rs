use crate::color::Color;
use crate::display::{is_first_match, lemma_resolve_first_match, resolve, spec_resolve};
use crate::error::WallpaperError;
use crate::request::{
    conclude_apply, prepare_apply, spec_conclude_apply, spec_desktop_options, spec_prepare_apply,
    ApplyCommand,
};
use crate::scaling::ScalingMode;
use vstd::prelude::*;

verus! {

/// What a run sets: the displays, by identifier and in this order, and the
/// options that each of them gets.
#[derive(Debug, PartialEq, Eq)]
pub struct Settings {
    pub targets: Vec<u64>,
    pub color: Color,
    pub scaling: ScalingMode,
    pub allow_clipping: bool,
}

/// How far a run has come.
#[derive(Debug, PartialEq, Eq)]
pub enum Stage {
    /// The command line has not been read yet.
    Arguments,
    /// The image is known; the data directory is not yet known to exist.
    Directories { image_path: String },
    /// The displays are to be enumerated for the target at this position.
    Displays { target: usize, image_path: String },
    /// The shell has been asked to carry this command out for the target at
    /// this position.
    Applying { target: usize, command: ApplyCommand },
    /// The run is over.
    Finished { outcome: Result<(), WallpaperError> },
}

/// What the outside world reports back to a run.
#[derive(Debug, PartialEq, Eq)]
pub enum Event {
    /// The command line was read: the image's path, if it named one.
    Arguments(Option<String>),
    /// The data directory exists, or could not be made.
    Directories(Result<(), String>),
    /// The identifiers of the attached displays, in the system's order.
    Displays(Vec<u64>),
    /// The shell carried the command out, or refused it.
    Applied(Result<(), String>),
}

/// What a run asks of its caller next.
#[derive(Debug, PartialEq, Eq)]
pub enum Action {
    ParseArguments,
    EnsureDirectories,
    EnumerateDisplays,
    Apply(ApplyCommand),
    Finish(Result<(), WallpaperError>),
}

/// One run: its settings, and how far it has come.
#[derive(Debug, PartialEq, Eq)]
pub struct Session {
    pub settings: Settings,
    pub stage: Stage,
}

impl Settings {
    /// The targets and options of an ordinary run: the displays 1 and 2,
    /// opaque yellow around the image, proportional scaling, clipping
    /// allowed.
    pub fn standard() -> (settings: Settings)
        ensures
            settings.targets@ == seq![1u64, 2u64],
            settings.color == Color::spec_yellow(),
            settings.color.spec_is_valid(),
            settings.scaling == ScalingMode::ProportionalUpOrDown,
            settings.allow_clipping,
    {
        let mut targets: Vec<u64> = Vec::new();
        targets.push(1);
        targets.push(2);
        assert(targets@ =~= seq![1u64, 2u64]);
        Settings {
            targets,
            color: Color::yellow(),
            scaling: ScalingMode::ProportionalUpOrDown,
            allow_clipping: true,
        }
    }

    /// The stage in which a run turns to the target at a position: it
    /// enumerates the displays for it, or is over where no target is left.
    pub open spec fn spec_turn_to(self, target: usize, image_path: String) -> Stage {
        if target < self.targets.len() {
            Stage::Displays { target, image_path }
        } else {
            Stage::Finished { outcome: Ok(()) }
        }
    }

    /// The stage after the displays were enumerated for a target: the shell
    /// is asked, unless no display reports the target's identifier or the
    /// color is refused.
    pub open spec fn spec_after_displays(
        self,
        target: usize,
        image_path: String,
        displays: Seq<u64>,
    ) -> Stage {
        if target < self.targets.len() {
            match spec_resolve(displays, self.targets[target as int]) {
                Ok(handle) => match spec_prepare_apply(
                    handle,
                    image_path,
                    self.color,
                    self.scaling,
                    self.allow_clipping,
                ) {
                    Ok(command) => Stage::Applying { target, command },
                    Err(error) => Stage::Finished { outcome: Err(error) },
                },
                Err(error) => Stage::Finished { outcome: Err(error) },
            }
        } else {
            Stage::Finished { outcome: Ok(()) }
        }
    }

    fn turn_to(&self, target: usize, image_path: String) -> (stage: Stage)
        ensures
            stage == self.spec_turn_to(target, image_path),
    {
        if target < self.targets.len() {
            Stage::Displays { target, image_path }
        } else {
            Stage::Finished { outcome: Ok(()) }
        }
    }

    fn after_displays(&self, target: usize, image_path: String, displays: &Vec<u64>) -> (stage:
        Stage)
        ensures
            stage == self.spec_after_displays(target, image_path, displays@),
    {
        if target < self.targets.len() {
            match resolve(displays, self.targets[target]) {
                Ok(handle) => match prepare_apply(
                    handle,
                    image_path,
                    self.color,
                    self.scaling,
                    self.allow_clipping,
                ) {
                    Ok(command) => Stage::Applying { target, command },
                    Err(error) => Stage::Finished { outcome: Err(error) },
                },
                Err(error) => Stage::Finished { outcome: Err(error) },
            }
        } else {
            Stage::Finished { outcome: Ok(()) }
        }
    }
}

impl Session {
    /// What the run asks of its caller in its stage.
    pub open spec fn spec_pending(self) -> Action {
        match self.stage {
            Stage::Arguments => Action::ParseArguments,
            Stage::Directories { .. } => Action::EnsureDirectories,
            Stage::Displays { .. } => Action::EnumerateDisplays,
            Stage::Applying { command, .. } => Action::Apply(command),
            Stage::Finished { outcome } => Action::Finish(outcome),
        }
    }

    /// The stage that follows on an event. An event that the stage does not
    /// wait for changes nothing.
    pub open spec fn spec_next_stage(self, event: Event) -> Stage {
        match self.stage {
            Stage::Arguments => match event {
                Event::Arguments(Some(image_path)) => Stage::Directories { image_path },
                Event::Arguments(None) => Stage::Finished {
                    outcome: Err(WallpaperError::MissingArgument),
                },
                _ => self.stage,
            },
            Stage::Directories { image_path } => match event {
                Event::Directories(Ok(_)) => self.settings.spec_turn_to(0, image_path),
                Event::Directories(Err(detail)) => Stage::Finished {
                    outcome: Err(WallpaperError::DirectoryCreation(detail)),
                },
                _ => self.stage,
            },
            Stage::Displays { target, image_path } => match event {
                Event::Displays(displays) => self.settings.spec_after_displays(
                    target,
                    image_path,
                    displays@,
                ),
                _ => self.stage,
            },
            Stage::Applying { target, command } => match event {
                Event::Applied(answer) => match spec_conclude_apply(answer) {
                    Ok(_) => if target < self.settings.targets.len() {
                        self.settings.spec_turn_to((target + 1) as usize, command.image_path)
                    } else {
                        Stage::Finished { outcome: Ok(()) }
                    },
                    Err(error) => Stage::Finished { outcome: Err(error) },
                },
                _ => self.stage,
            },
            Stage::Finished { .. } => self.stage,
        }
    }

    /// The run after an event: the same settings, in the stage that follows.
    pub open spec fn spec_step(self, event: Event) -> Session {
        Session { settings: self.settings, stage: self.spec_next_stage(event) }
    }

    /// A run that has not begun.
    pub fn new(settings: Settings) -> (session: Session)
        ensures
            session == (Session { settings, stage: Stage::Arguments }),
    {
        Session { settings, stage: Stage::Arguments }
    }

    /// What the run asks of its caller in its stage.
    pub fn pending(&self) -> (action: Action)
        ensures
            action == self.spec_pending(),
    {
        match &self.stage {
            Stage::Arguments => Action::ParseArguments,
            Stage::Directories { .. } => Action::EnsureDirectories,
            Stage::Displays { .. } => Action::EnumerateDisplays,
            Stage::Applying { command, .. } => Action::Apply(command.clone()),
            Stage::Finished { outcome } => match outcome {
                Ok(done) => Action::Finish(Ok(*done)),
                Err(error) => Action::Finish(Err(error.clone())),
            },
        }
    }

    /// Takes the run one step on: from its stage and what the outside world
    /// reported, to the stage that follows and what is asked next.
    pub fn step(self, event: Event) -> (next: (Session, Action))
        ensures
            next.0 == self.spec_step(event),
            next.1 == next.0.spec_pending(),
    {
        let Session { settings, stage } = self;
        let stage = match stage {
            Stage::Arguments => match event {
                Event::Arguments(Some(image_path)) => Stage::Directories { image_path },
                Event::Arguments(None) => Stage::Finished {
                    outcome: Err(WallpaperError::MissingArgument),
                },
                _ => Stage::Arguments,
            },
            Stage::Directories { image_path } => match event {
                Event::Directories(Ok(_)) => settings.turn_to(0, image_path),
                Event::Directories(Err(detail)) => Stage::Finished {
                    outcome: Err(WallpaperError::DirectoryCreation(detail)),
                },
                _ => Stage::Directories { image_path },
            },
            Stage::Displays { target, image_path } => match event {
                Event::Displays(displays) => settings.after_displays(
                    target,
                    image_path,
                    &displays,
                ),
                _ => Stage::Displays { target, image_path },
            },
            Stage::Applying { target, command } => match event {
                Event::Applied(answer) => match conclude_apply(answer) {
                    Ok(_) => if target < settings.targets.len() {
                        settings.turn_to(target + 1, command.image_path)
                    } else {
                        Stage::Finished { outcome: Ok(()) }
                    },
                    Err(error) => Stage::Finished { outcome: Err(error) },
                },
                _ => Stage::Applying { target, command },
            },
            Stage::Finished { outcome } => Stage::Finished { outcome },
        };
        let session = Session { settings, stage };
        let action = session.pending();
        (session, action)
    }
}

/// A run that finds no image on its command line ends at once with the
/// error for a missing argument, whose exit code is 1. Whatever is reported
/// to a run that has not read its command line, the run asks neither for the
/// displays nor for an image to be set next.
pub proof fn lemma_missing_argument_ends_run(session: Session, event: Event)
    requires
        session.stage is Arguments,
    ensures
        event == Event::Arguments(None) ==> session.spec_step(event).spec_pending()
            == Action::Finish(Err(WallpaperError::MissingArgument)),
        WallpaperError::MissingArgument.spec_exit_code() == 1,
        !(session.spec_step(event).spec_pending() is EnumerateDisplays),
        !(session.spec_step(event).spec_pending() is Apply),
{
}

/// Where no attached display reports the identifier of the target, the run
/// ends with the error that names this identifier, and asks for no image to
/// be set.
pub proof fn lemma_absent_display_ends_run(session: Session, displays: Vec<u64>)
    requires
        session.stage is Displays,
        session.stage->Displays_target < session.settings.targets.len(),
        !displays@.contains(session.settings.targets[session.stage->Displays_target as int]),
    ensures
        session.spec_step(Event::Displays(displays)).spec_pending() == Action::Finish(
            Err(
                WallpaperError::DisplayNotFound(
                    session.settings.targets[session.stage->Displays_target as int],
                ),
            ),
        ),
{
    assert(displays@.len() == displays.len());
    lemma_resolve_first_match(
        displays@,
        session.settings.targets[session.stage->Displays_target as int],
    );
}

/// With a color of which a channel is not a number from zero to one, no
/// report of the displays makes the run ask for an image to be set: it ends
/// with an error.
pub proof fn lemma_invalid_color_never_applied(session: Session, displays: Vec<u64>)
    requires
        session.stage is Displays,
        session.stage->Displays_target < session.settings.targets.len(),
        !session.settings.color.spec_is_valid(),
    ensures
        session.spec_step(Event::Displays(displays)).stage is Finished,
        session.spec_step(Event::Displays(displays)).stage->Finished_outcome is Err,
        displays@.contains(session.settings.targets[session.stage->Displays_target as int])
            ==> session.spec_step(Event::Displays(displays)).stage->Finished_outcome == Err::<
            (),
            WallpaperError,
        >(WallpaperError::InvalidColor),
{
    assert(displays@.len() == displays.len());
    lemma_resolve_first_match(
        displays@,
        session.settings.targets[session.stage->Displays_target as int],
    );
}

/// With a valid color and a display that reports the identifier of the
/// target, the run asks the shell to set the image: on the first such
/// display, with the path from the command line and the options of the
/// settings.
pub proof fn lemma_present_display_is_applied(session: Session, displays: Vec<u64>)
    requires
        session.stage is Displays,
        session.stage->Displays_target < session.settings.targets.len(),
        session.settings.color.spec_is_valid(),
        displays@.contains(session.settings.targets[session.stage->Displays_target as int]),
    ensures
        session.spec_step(Event::Displays(displays)).spec_pending() is Apply,
        ({
            let command = session.spec_step(Event::Displays(displays)).spec_pending()->Apply_0;
            &&& is_first_match(
                displays@,
                session.settings.targets[session.stage->Displays_target as int],
                command.display,
            )
            &&& command.image_path == session.stage->Displays_image_path
            &&& command.options == spec_desktop_options(
                session.settings.color,
                session.settings.scaling,
                session.settings.allow_clipping,
            )
        }),
{
    assert(displays@.len() == displays.len());
    lemma_resolve_first_match(
        displays@,
        session.settings.targets[session.stage->Displays_target as int],
    );
}

/// A run comes to ask for an image to be set in one way only: the displays
/// were reported for a target, the color is valid, and the command names
/// the first display that reports the target's identifier.
pub proof fn lemma_apply_follows_resolution(session: Session, event: Event)
    requires
        session.spec_step(event).stage is Applying,
        !(session.stage is Applying),
    ensures
        session.stage is Displays,
        event is Displays,
        session.settings.color.spec_is_valid(),
        session.stage->Displays_target < session.settings.targets.len(),
        is_first_match(
            (event->Displays_0)@,
            session.settings.targets[session.stage->Displays_target as int],
            session.spec_step(event).stage->Applying_command.display,
        ),
{
    if session.stage is Displays && event is Displays {
        assert((event->Displays_0)@.len() == (event->Displays_0).len());
        lemma_resolve_first_match(
            (event->Displays_0)@,
            session.settings.targets[session.stage->Displays_target as int],
        );
    }
}

/// What the shell answers decides how the run goes on. A refusal ends it
/// with the error that keeps the shell's words, whose exit code is 3.
/// After a success the run turns to the next target, or ends well where
/// the target was the last.
pub proof fn lemma_shell_answer_decides(session: Session, answer: Result<(), String>)
    requires
        session.stage is Applying,
        session.stage->Applying_target < session.settings.targets.len(),
    ensures
        match answer {
            Ok(_) => if session.stage->Applying_target + 1 < session.settings.targets.len() {
                session.spec_step(Event::Applied(answer)).stage == (Stage::Displays {
                    target: (session.stage->Applying_target + 1) as usize,
                    image_path: session.stage->Applying_command.image_path,
                })
            } else {
                session.spec_step(Event::Applied(answer)).stage == (Stage::Finished {
                    outcome: Ok(()),
                })
            },
            Err(detail) => {
                &&& session.spec_step(Event::Applied(answer)).spec_pending() == Action::Finish(
                    Err(WallpaperError::ApplyFailure(detail)),
                )
                &&& WallpaperError::ApplyFailure(detail).spec_exit_code() == 3
                &&& WallpaperError::ApplyFailure(detail).spec_message()
                    == "cannot set the desktop image: "@ + detail@
            },
        },
{
}

/// A run that is over stays as it is, whatever is reported to it.
pub proof fn lemma_finished_stays(session: Session, event: Event)
    requires
        session.stage is Finished,
    ensures
        session.spec_step(event) == session,
{
}

} // verus!

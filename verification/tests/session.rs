use space_eye::color::Color;
use space_eye::display::DisplayHandle;
use space_eye::error::{exit_code_of, WallpaperError};
use space_eye::request::{ApplyCommand, DesktopImage, DesktopOptions};
use space_eye::scaling::ScalingMode;
use space_eye::session::{Action, Event, Session, Settings, Stage};
use std::collections::HashMap;

/// A desktop shell that lives in memory: it knows its displays, refuses the
/// images it is told to refuse, and counts what it was asked.
struct Shell {
    displays: Vec<u64>,
    unreadable: Vec<String>,
    desktop: HashMap<u64, DesktopImage>,
    enumerations: usize,
    applications: usize,
}

impl Shell {
    fn with_displays(displays: Vec<u64>) -> Shell {
        Shell {
            displays,
            unreadable: Vec::new(),
            desktop: HashMap::new(),
            enumerations: 0,
            applications: 0,
        }
    }

    fn apply(&mut self, command: &ApplyCommand) -> Result<(), String> {
        self.applications += 1;
        assert_eq!(self.displays[command.display.index], command.display.identifier);
        if self.unreadable.contains(&command.image_path) {
            return Err(format!("The file {} could not be opened.", command.image_path));
        }
        self.desktop.insert(
            command.display.identifier,
            DesktopImage { image_path: command.image_path.clone(), options: command.options },
        );
        Ok(())
    }
}

fn run(
    settings: Settings,
    argument: Option<&str>,
    directories: Result<(), String>,
    shell: &mut Shell,
) -> Result<(), WallpaperError> {
    let mut session = Session::new(settings);
    let mut action = session.pending();
    for _ in 0..100 {
        let event = match action {
            Action::ParseArguments => Event::Arguments(argument.map(String::from)),
            Action::EnsureDirectories => Event::Directories(directories.clone()),
            Action::EnumerateDisplays => {
                shell.enumerations += 1;
                Event::Displays(shell.displays.clone())
            }
            Action::Apply(command) => Event::Applied(shell.apply(&command)),
            Action::Finish(outcome) => return outcome,
        };
        let (next, asked) = session.step(event);
        assert_eq!(asked, next.pending());
        session = next;
        action = asked;
    }
    panic!("the run did not end");
}

fn yellow_options() -> DesktopOptions {
    DesktopOptions { scaling_value: 3, clipping_value: 1, fill_color: Color::yellow() }
}

#[test]
fn standard_settings_target_displays_one_and_two() {
    let settings = Settings::standard();
    assert_eq!(settings.targets, vec![1, 2]);
    assert_eq!(settings.color, Color::yellow());
    assert_eq!(settings.scaling, ScalingMode::ProportionalUpOrDown);
    assert!(settings.allow_clipping);
}

#[test]
fn a_new_session_asks_for_the_arguments() {
    let session = Session::new(Settings::standard());
    assert_eq!(session.stage, Stage::Arguments);
    assert_eq!(session.pending(), Action::ParseArguments);
}

#[test]
fn a_run_sets_the_image_on_both_displays() {
    let mut shell = Shell::with_displays(vec![2, 5, 1]);
    let outcome = run(Settings::standard(), Some("/tmp/earth.png"), Ok(()), &mut shell);
    assert_eq!(outcome, Ok(()));
    assert_eq!(exit_code_of(&outcome), 0);
    assert_eq!(shell.enumerations, 2);
    assert_eq!(shell.applications, 2);
    assert_eq!(shell.desktop.len(), 2);
    for display in [1u64, 2] {
        assert_eq!(
            shell.desktop[&display],
            DesktopImage { image_path: String::from("/tmp/earth.png"), options: yellow_options() }
        );
    }
}

#[test]
fn a_run_without_argument_ends_before_anything_is_asked_of_the_shell() {
    let mut shell = Shell::with_displays(vec![1, 2]);
    let outcome = run(Settings::standard(), None, Ok(()), &mut shell);
    assert_eq!(outcome, Err(WallpaperError::MissingArgument));
    assert_eq!(exit_code_of(&outcome), 1);
    assert_eq!(shell.enumerations, 0);
    assert_eq!(shell.applications, 0);
    assert!(shell.desktop.is_empty());

    let (session, action) = Session::new(Settings::standard()).step(Event::Arguments(None));
    assert_eq!(action, Action::Finish(Err(WallpaperError::MissingArgument)));
    assert_eq!(session.stage, Stage::Finished { outcome: Err(WallpaperError::MissingArgument) });
}

#[test]
fn a_run_ends_where_the_directory_cannot_be_made() {
    let mut shell = Shell::with_displays(vec![1, 2]);
    let outcome = run(
        Settings::standard(),
        Some("/tmp/earth.png"),
        Err(String::from("Permission denied (os error 13)")),
        &mut shell,
    );
    assert_eq!(
        outcome,
        Err(WallpaperError::DirectoryCreation(String::from("Permission denied (os error 13)")))
    );
    assert_eq!(exit_code_of(&outcome), 4);
    assert_eq!(shell.enumerations, 0);
    assert_eq!(shell.applications, 0);
}

#[test]
fn a_run_ends_at_the_first_display_that_is_absent() {
    let mut shell = Shell::with_displays(vec![1, 3]);
    let outcome = run(Settings::standard(), Some("/tmp/earth.png"), Ok(()), &mut shell);
    assert_eq!(outcome, Err(WallpaperError::DisplayNotFound(2)));
    assert_eq!(exit_code_of(&outcome), 2);
    assert_eq!(shell.applications, 1);
    assert_eq!(shell.desktop.len(), 1);
    assert_eq!(shell.desktop[&1].image_path, "/tmp/earth.png");

    let mut shell = Shell::with_displays(vec![2, 3]);
    let outcome = run(Settings::standard(), Some("/tmp/earth.png"), Ok(()), &mut shell);
    assert_eq!(outcome, Err(WallpaperError::DisplayNotFound(1)));
    assert_eq!(shell.enumerations, 1);
    assert_eq!(shell.applications, 0);
    assert!(shell.desktop.is_empty());

    let mut shell = Shell::with_displays(Vec::new());
    let outcome = run(Settings::standard(), Some("/tmp/earth.png"), Ok(()), &mut shell);
    assert_eq!(outcome, Err(WallpaperError::DisplayNotFound(1)));
    assert_eq!(shell.applications, 0);
}

#[test]
fn a_run_with_an_invalid_color_asks_nothing_of_the_shell() {
    for bad in [1.5f64, -0.25, f64::NAN, f64::INFINITY] {
        let mut shell = Shell::with_displays(vec![1, 2]);
        let settings = Settings {
            targets: vec![1, 2],
            color: Color::from_patterns(
                1.0f64.to_bits(),
                bad.to_bits(),
                0.0f64.to_bits(),
                1.0f64.to_bits(),
            ),
            scaling: ScalingMode::Fill,
            allow_clipping: false,
        };
        let outcome = run(settings, Some("/tmp/earth.png"), Ok(()), &mut shell);
        assert_eq!(outcome, Err(WallpaperError::InvalidColor));
        assert_eq!(exit_code_of(&outcome), 5);
        assert_eq!(shell.applications, 0);
        assert!(shell.desktop.is_empty());
    }
}

#[test]
fn a_refusal_of_the_shell_ends_the_run_with_its_words() {
    let mut shell = Shell::with_displays(vec![1, 2]);
    shell.unreadable.push(String::from("/tmp/absent.png"));
    let outcome = run(Settings::standard(), Some("/tmp/absent.png"), Ok(()), &mut shell);
    assert_eq!(
        outcome,
        Err(WallpaperError::ApplyFailure(String::from(
            "The file /tmp/absent.png could not be opened."
        )))
    );
    assert_eq!(exit_code_of(&outcome), 3);
    assert_eq!(
        outcome.unwrap_err().message(),
        "cannot set the desktop image: The file /tmp/absent.png could not be opened."
    );
    assert_eq!(shell.applications, 1);
    assert!(shell.desktop.is_empty());
}

#[test]
fn a_run_twice_leaves_the_desktop_as_after_once() {
    let mut shell = Shell::with_displays(vec![1, 2, 3]);
    assert_eq!(run(Settings::standard(), Some("/tmp/earth.png"), Ok(()), &mut shell), Ok(()));
    let first: Vec<(u64, String, DesktopOptions)> = [1u64, 2]
        .iter()
        .map(|d| (*d, shell.desktop[d].image_path.clone(), shell.desktop[d].options))
        .collect();
    assert_eq!(run(Settings::standard(), Some("/tmp/earth.png"), Ok(()), &mut shell), Ok(()));
    let second: Vec<(u64, String, DesktopOptions)> = [1u64, 2]
        .iter()
        .map(|d| (*d, shell.desktop[d].image_path.clone(), shell.desktop[d].options))
        .collect();
    assert_eq!(first, second);
    assert_eq!(shell.desktop.len(), 2);
}

#[test]
fn the_command_names_the_first_display_with_the_identifier() {
    let settings = Settings {
        targets: vec![7],
        color: Color::yellow(),
        scaling: ScalingMode::Fit,
        allow_clipping: false,
    };
    let session = Session {
        settings,
        stage: Stage::Displays { target: 0, image_path: String::from("/tmp/earth.png") },
    };
    assert_eq!(session.pending(), Action::EnumerateDisplays);
    let (session, action) = session.step(Event::Displays(vec![4, 7, 7]));
    let command = ApplyCommand {
        display: DisplayHandle { index: 1, identifier: 7 },
        image_path: String::from("/tmp/earth.png"),
        options: DesktopOptions { scaling_value: 0, clipping_value: 0, fill_color: Color::yellow() },
    };
    assert_eq!(action, Action::Apply(command.clone()));
    assert_eq!(session.stage, Stage::Applying { target: 0, command });
    let (session, action) = session.step(Event::Applied(Ok(())));
    assert_eq!(action, Action::Finish(Ok(())));
    assert_eq!(session.stage, Stage::Finished { outcome: Ok(()) });
}

#[test]
fn an_event_that_is_not_awaited_changes_nothing() {
    let (session, action) = Session::new(Settings::standard()).step(Event::Displays(vec![1, 2]));
    assert_eq!(session.stage, Stage::Arguments);
    assert_eq!(action, Action::ParseArguments);
    let (session, action) = session.step(Event::Applied(Ok(())));
    assert_eq!(session.stage, Stage::Arguments);
    assert_eq!(action, Action::ParseArguments);

    let (session, action) = session.step(Event::Arguments(Some(String::from("/tmp/earth.png"))));
    assert_eq!(action, Action::EnsureDirectories);
    let (session, action) = session.step(Event::Arguments(None));
    assert_eq!(
        session.stage,
        Stage::Directories { image_path: String::from("/tmp/earth.png") }
    );
    assert_eq!(action, Action::EnsureDirectories);

    let (session, action) = session.step(Event::Directories(Ok(())));
    assert_eq!(action, Action::EnumerateDisplays);
    let (session, action) = session.step(Event::Directories(Err(String::from("late"))));
    assert_eq!(
        session.stage,
        Stage::Displays { target: 0, image_path: String::from("/tmp/earth.png") }
    );
    assert_eq!(action, Action::EnumerateDisplays);
}

#[test]
fn a_finished_run_stays_finished() {
    let (session, _) = Session::new(Settings::standard()).step(Event::Arguments(None));
    let (session, action) = session.step(Event::Arguments(Some(String::from("/tmp/earth.png"))));
    assert_eq!(action, Action::Finish(Err(WallpaperError::MissingArgument)));
    let (session, action) = session.step(Event::Displays(vec![1, 2]));
    assert_eq!(action, Action::Finish(Err(WallpaperError::MissingArgument)));
    assert_eq!(session.stage, Stage::Finished { outcome: Err(WallpaperError::MissingArgument) });
}

#[test]
fn a_run_without_targets_ends_well_after_the_directories() {
    let mut shell = Shell::with_displays(vec![1, 2]);
    let settings = Settings {
        targets: Vec::new(),
        color: Color::yellow(),
        scaling: ScalingMode::ProportionalUpOrDown,
        allow_clipping: true,
    };
    assert_eq!(run(settings, Some("/tmp/earth.png"), Ok(()), &mut shell), Ok(()));
    assert_eq!(shell.enumerations, 0);
    assert_eq!(shell.applications, 0);
}

#[test]
fn a_stage_past_the_last_target_ends_the_run() {
    let session = Session {
        settings: Settings::standard(),
        stage: Stage::Displays { target: 2, image_path: String::from("/tmp/earth.png") },
    };
    let (session, action) = session.step(Event::Displays(vec![1, 2]));
    assert_eq!(action, Action::Finish(Ok(())));
    assert_eq!(session.stage, Stage::Finished { outcome: Ok(()) });
}

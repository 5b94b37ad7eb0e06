use spelunking_clock::command::GameCommand;
use spelunking_clock::input::{
    game_command, AppCommand, Command, Input, InputHandler, KEY_A, KEY_Q, KEY_W,
};
use spelunking_clock::keymod::KeyMod;
use spelunking_clock::physics::Direction;

const ZERO: Command = Command::Game(GameCommand::Move(Direction::N));
const ONE: Command = Command::Game(GameCommand::Move(Direction::S));
const TWO: Command = Command::App(AppCommand::Pause);
const BUTTON: Input = Input::Mouse(0);

#[test]
fn bindings_resolution() {
    let mut handler = InputHandler::new();
    handler.bind(BUTTON, KeyMod::shift(), ZERO);
    handler.bind(BUTTON, KeyMod::none(), ONE);
    handler.bind(BUTTON, KeyMod::shift() | KeyMod::ctrl(), TWO);
    assert_eq!(handler.resolve(BUTTON, KeyMod::none()), Some(ONE));
    assert_eq!(handler.resolve(BUTTON, KeyMod::shift()), Some(ZERO));
    assert_eq!(
        handler.resolve(BUTTON, KeyMod::ctrl() | KeyMod::shift()),
        Some(TWO)
    );
    assert_eq!(handler.resolve(BUTTON, KeyMod::ctrl()), Some(ONE));
    assert_eq!(
        handler.resolve(BUTTON, KeyMod::ctrl() | KeyMod::shift() | KeyMod::alt()),
        Some(TWO)
    );

    let mut handler = InputHandler::new();
    handler.bind(BUTTON, KeyMod::shift() | KeyMod::ctrl(), TWO);
    handler.bind(BUTTON, KeyMod::shift(), ZERO);
    handler.bind(BUTTON, KeyMod::none(), ONE);
    assert_eq!(handler.resolve(BUTTON, KeyMod::none()), Some(ONE));
    assert_eq!(handler.resolve(BUTTON, KeyMod::shift()), Some(ZERO));
    assert_eq!(
        handler.resolve(BUTTON, KeyMod::ctrl() | KeyMod::shift()),
        Some(TWO)
    );
    assert_eq!(handler.resolve(BUTTON, KeyMod::ctrl()), Some(ONE));
    assert_eq!(
        handler.resolve(BUTTON, KeyMod::ctrl() | KeyMod::shift() | KeyMod::alt()),
        Some(TWO)
    );
}

#[test]
fn rebinding_replaces_command() {
    let mut handler = InputHandler::new();
    handler.bind(BUTTON, KeyMod::alt(), ZERO);
    handler.bind(BUTTON, KeyMod::alt(), ONE);
    assert_eq!(handler.resolve(BUTTON, KeyMod::alt()), Some(ONE));
    assert_eq!(handler.resolve(BUTTON, KeyMod::none()), None);
    assert_eq!(handler.resolve(Input::Mouse(1), KeyMod::alt()), None);
    assert_eq!(handler.resolve(Input::Key(0), KeyMod::alt()), None);
}

#[test]
fn default_bindings() {
    let handler = InputHandler::default();
    assert_eq!(
        handler.resolve(Input::Key(KEY_W), KeyMod::none()),
        Some(Command::Game(GameCommand::Move(Direction::N)))
    );
    assert_eq!(
        handler.resolve(Input::Key(KEY_A), KeyMod::shift()),
        Some(Command::Game(GameCommand::Move(Direction::W)))
    );
    assert_eq!(handler.resolve(Input::Key(KEY_Q), KeyMod::ctrl()), None);
    assert_eq!(
        handler.resolve(Input::Key(KEY_Q), KeyMod::ctrl() | KeyMod::alt()),
        Some(Command::App(AppCommand::Exit))
    );
}

#[test]
fn only_game_commands_reach_the_game() {
    assert_eq!(
        game_command(Some(Command::Game(GameCommand::Move(Direction::W)))),
        Some(GameCommand::Move(Direction::W))
    );
    assert_eq!(game_command(Some(Command::App(AppCommand::Exit))), None);
    assert_eq!(game_command(None), None);
}

#[test]
fn more_modifiers_are_tried_first() {
    let mut handler = InputHandler::new();
    handler.bind(BUTTON, KeyMod::none(), ONE);
    handler.bind(BUTTON, KeyMod::ctrl(), ZERO);
    handler.bind(BUTTON, KeyMod::ctrl() | KeyMod::alt() | KeyMod::logo(), TWO);
    assert_eq!(handler.resolve(BUTTON, KeyMod::all()), Some(TWO));
    assert_eq!(handler.resolve(BUTTON, KeyMod::ctrl() | KeyMod::alt()), Some(ZERO));
    assert_eq!(handler.resolve(BUTTON, KeyMod::alt()), Some(ONE));
}

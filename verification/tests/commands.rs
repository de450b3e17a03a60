use carapax::command::CommandError;
use carapax::context::Context;
use carapax::dispatcher::{Dispatcher, ErrorStrategy};
use carapax::handler::{
    CommandHandler, CommandsHandler, Handler, HandlerError, HandlerFuture, NoopHandler,
};
use carapax::types::{Command, Message, Update, UpdateKind};

const ARGS: u64 = 1;
const MARKS: u64 = 2;

#[derive(Clone, Debug, PartialEq)]
enum Value {
    Args(Vec<String>),
    Marks(Vec<String>),
}

fn create_context() -> Context<Value> {
    let mut context = Context::new();
    context.set(ARGS, Value::Args(vec![]));
    context.set(MARKS, Value::Marks(vec![]));
    context
}

fn get_args(context: &Context<Value>) -> Vec<String> {
    match context.get(ARGS) {
        Value::Args(items) => items.clone(),
        _ => panic!("args slot holds another value"),
    }
}

fn get_marks(context: &Context<Value>) -> Vec<String> {
    match context.get(MARKS) {
        Value::Marks(items) => items.clone(),
        _ => panic!("marks slot holds another value"),
    }
}

/// Records every invocation under a label, together with the arguments.
struct Recorder {
    label: String,
}

impl CommandHandler<Value> for Recorder {
    fn handle(
        &mut self,
        context: &mut Context<Value>,
        _message: &Message,
        args: Vec<String>,
    ) -> HandlerFuture {
        let mut items = get_args(context);
        items.extend(args);
        context.set(ARGS, Value::Args(items));
        let mut marks = get_marks(context);
        marks.push(self.label.clone());
        context.set(MARKS, Value::Marks(marks));
        HandlerFuture::new(Ok(()))
    }
}

fn recorder(label: &str) -> Recorder {
    Recorder {
        label: label.to_string(),
    }
}

type CommandsDispatcher = Dispatcher<
    Value,
    CommandsHandler<Recorder>,
    NoopHandler,
    NoopHandler,
    NoopHandler,
    NoopHandler,
    NoopHandler,
    NoopHandler,
>;

fn command_dispatcher(commands: CommandsHandler<Recorder>) -> CommandsDispatcher {
    Dispatcher::new(
        vec![],
        vec![Handler::message(commands)],
        create_context(),
        ErrorStrategy::Abort,
        ErrorStrategy::Abort,
    )
}

fn command_message(text: &str, name: &str, offset: usize, length: usize) -> Update {
    Update {
        id: 1,
        kind: UpdateKind::Message(Message {
            commands: Some(vec![Command {
                command: name.to_string(),
                offset,
                length,
            }]),
            text: Some(text.to_string()),
        }),
    }
}

#[test]
fn test_commands_handler() {
    let commands = CommandsHandler::default().add_handler("/testcommand", recorder("found"));
    let mut dispatcher = command_dispatcher(commands);
    let update = command_message("/testcommand 'arg1 v' arg2", "/testcommand", 0, 12);
    assert!(update.is_well_formed());
    dispatcher.dispatch(update).unwrap();
    assert_eq!(
        get_args(&dispatcher.context),
        vec![String::from("arg1 v"), String::from("arg2")]
    );
    assert_eq!(get_marks(&dispatcher.context), vec![String::from("found")]);
}

// An unterminated quote in the trailing text is a mismatched-quotes parse
// failure, not a panic; under the Abort strategy it halts the chain.
#[test]
fn mismatched_quotes_fail_and_halt_chain() {
    let commands = CommandsHandler::default().add_handler("/cmd", recorder("found"));
    let mut dispatcher = command_dispatcher(commands);
    let update = command_message("/cmd 'unterminated", "/cmd", 0, 4);
    let outcome = dispatcher.dispatch(update);
    assert_eq!(
        outcome,
        Err(HandlerError::Command(CommandError::MismatchedQuotes))
    );
    assert!(get_args(&dispatcher.context).is_empty());
    assert!(get_marks(&dispatcher.context).is_empty());
}

// A message without parsed commands is a no-op success: neither a table
// entry nor the fallback is invoked.
#[test]
fn message_without_commands_is_noop_success() {
    let commands = CommandsHandler::default()
        .add_handler("/cmd", recorder("found"))
        .not_found_handler(recorder("fallback"));
    let mut dispatcher = command_dispatcher(commands);
    let update = Update {
        id: 1,
        kind: UpdateKind::Message(Message {
            commands: None,
            text: Some("just words".to_string()),
        }),
    };
    dispatcher.dispatch(update).unwrap();
    assert!(get_args(&dispatcher.context).is_empty());
    assert!(get_marks(&dispatcher.context).is_empty());
}

// A command whose name is not in the table goes to the registered
// fallback, with the same parsed arguments a table entry would have seen.
#[test]
fn unknown_command_invokes_fallback_with_same_args() {
    let commands = CommandsHandler::default()
        .add_handler("/other", recorder("found"))
        .not_found_handler(recorder("fallback"));
    let mut dispatcher = command_dispatcher(commands);
    let update = command_message("/testcommand 'arg1 v' arg2", "/testcommand", 0, 12);
    dispatcher.dispatch(update).unwrap();
    assert_eq!(
        get_args(&dispatcher.context),
        vec![String::from("arg1 v"), String::from("arg2")]
    );
    assert_eq!(
        get_marks(&dispatcher.context),
        vec![String::from("fallback")]
    );
}

// A command whose name is not in the table, with no fallback registered,
// is a no-op success.
#[test]
fn unknown_command_without_fallback_is_noop_success() {
    let commands = CommandsHandler::default().add_handler("/other", recorder("found"));
    let mut dispatcher = command_dispatcher(commands);
    let update = command_message("/testcommand 'arg1 v' arg2", "/testcommand", 0, 12);
    dispatcher.dispatch(update).unwrap();
    assert!(get_args(&dispatcher.context).is_empty());
    assert!(get_marks(&dispatcher.context).is_empty());
}

// Registering a handler again under the same name replaces the earlier
// one: the last registration wins.
#[test]
fn last_registration_for_a_name_wins() {
    let commands = CommandsHandler::default()
        .add_handler("/cmd", recorder("first"))
        .add_handler("/cmd", recorder("second"));
    let mut dispatcher = command_dispatcher(commands);
    let update = command_message("/cmd x", "/cmd", 0, 4);
    dispatcher.dispatch(update).unwrap();
    assert_eq!(get_args(&dispatcher.context), vec![String::from("x")]);
    assert_eq!(get_marks(&dispatcher.context), vec![String::from("second")]);
}

// Only the first command of a message is considered; the rest are
// ignored by design.
#[test]
fn only_first_command_is_dispatched() {
    let commands = CommandsHandler::default()
        .add_handler("/first", recorder("first"))
        .add_handler("/second", recorder("second"));
    let mut dispatcher = command_dispatcher(commands);
    let update = Update {
        id: 1,
        kind: UpdateKind::Message(Message {
            commands: Some(vec![
                Command {
                    command: "/first".to_string(),
                    offset: 0,
                    length: 6,
                },
                Command {
                    command: "/second".to_string(),
                    offset: 7,
                    length: 7,
                },
            ]),
            text: Some("/first /second tail".to_string()),
        }),
    };
    dispatcher.dispatch(update).unwrap();
    assert_eq!(
        get_args(&dispatcher.context),
        vec![String::from("/second"), String::from("tail")]
    );
    assert_eq!(get_marks(&dispatcher.context), vec![String::from("first")]);
}

// A unit return lifts into the success completion.
#[test]
fn unit_lifts_into_success_completion() {
    let f: HandlerFuture = ().into();
    assert!(f.result.is_ok());
}

// A result return lifts into a completion with the same outcome.
#[test]
fn result_lifts_into_completion() {
    let err = Err(HandlerError::Custom("no".to_string()));
    let f: HandlerFuture = err.into();
    assert_eq!(
        f.result,
        Err(HandlerError::Custom("no".to_string()))
    );
    let ok: HandlerFuture = Ok(()).into();
    assert!(ok.result.is_ok());
}

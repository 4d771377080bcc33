use gptcli::config::Config;
use gptcli::error::ChatError;
use gptcli::gpt::{ChatCompletion, Choice, Message, Usage, GPT};
use gptcli::store::{RecordStore, APPLICATION, DATABASE_NAME, RECORD_KEY};

fn first_run() -> Config {
    Config::load(&RecordStore::Empty).unwrap()
}

fn completion(id: &str, reply: &str) -> ChatCompletion {
    ChatCompletion {
        id: id.to_string(),
        object: "chat.completion".to_string(),
        created: 1_700_000_000,
        choices: vec![Choice {
            index: 0,
            message: Message::new("assistant".to_string(), reply.to_string()),
            finish_reason: "stop".to_string(),
        }],
        usage: Usage { prompt_tokens: 9, completion_tokens: 12, total_tokens: 21 },
    }
}

fn same_turns(left: &[Message], right: &[Message]) -> bool {
    left.len() == right.len()
        && left.iter().zip(right).all(|(a, b)| a.role == b.role && a.content == b.content)
}

#[test]
fn empty_store_loads_first_run_settings() {
    let config = first_run();
    assert_eq!(config.get_api_key(), "");
    assert_eq!(config.get_model(), "gpt-3.5-turbo");
    assert!(config.previous_chat_log.is_empty());
    assert!(config.chat_completions.is_empty());
    assert!(!config.has_api_key());
}

#[test]
fn unavailable_store_loads_nothing() {
    match Config::load(&RecordStore::Unavailable) {
        Err(error) => assert_eq!(error, ChatError::StoreUnavailable),
        Ok(_) => panic!("an unavailable store gave settings"),
    }
}

#[test]
fn unavailable_store_takes_nothing() {
    let config = first_run();
    let mut store = RecordStore::Unavailable;
    assert_eq!(config.save(&mut store), Err(ChatError::StoreUnavailable));
    assert!(matches!(store, RecordStore::Unavailable));
}

#[test]
fn saved_settings_load_equal_in_every_field() {
    let mut config = first_run();
    config.set_api_key("sk-test".to_string());
    config.change_model("gpt-4");
    config.previous_chat_log.push(Message::new("user".to_string(), "Hi".to_string()));
    config.previous_chat_log.push(Message::new("assistant".to_string(), "Hello".to_string()));
    config.add_chat_log(completion("cmpl-1", "Hello"));

    let mut store = RecordStore::Empty;
    assert_eq!(config.save(&mut store), Ok(()));
    let loaded = Config::load(&store).unwrap();

    assert_eq!(loaded.api_key, "sk-test");
    assert_eq!(loaded.model, "gpt-4");
    assert!(same_turns(&loaded.previous_chat_log, &config.previous_chat_log));
    assert_eq!(loaded.previous_chat_log[0].role, "user");
    assert_eq!(loaded.previous_chat_log[1].content, "Hello");
    assert_eq!(loaded.chat_completions.len(), 1);
    let record = &loaded.chat_completions[0];
    assert_eq!(record.id, "cmpl-1");
    assert_eq!(record.object, "chat.completion");
    assert_eq!(record.created, 1_700_000_000);
    assert_eq!(record.usage, Usage { prompt_tokens: 9, completion_tokens: 12, total_tokens: 21 });
    assert_eq!(record.choices.len(), 1);
    assert_eq!(record.choices[0].index, 0);
    assert_eq!(record.choices[0].finish_reason, "stop");
    assert_eq!(record.choices[0].message.role, "assistant");
    assert_eq!(record.choices[0].message.content, "Hello");
}

#[test]
fn chosen_model_survives_save_and_load() {
    let mut config = first_run();
    config.change_model("gpt-4");
    let mut store = RecordStore::Empty;
    config.save(&mut store).unwrap();
    assert_eq!(Config::load(&store).unwrap().get_model(), "gpt-4");
}

#[test]
fn second_save_replaces_the_first() {
    let mut store = RecordStore::Empty;
    let mut config = first_run();
    config.change_model("gpt-4");
    config.save(&mut store).unwrap();
    config.change_model("gpt-4o");
    config.set_api_key("sk-2".to_string());
    config.save(&mut store).unwrap();
    let loaded = Config::load(&store).unwrap();
    assert_eq!(loaded.get_model(), "gpt-4o");
    assert_eq!(loaded.get_api_key(), "sk-2");
}

#[test]
fn save_leaves_the_settings_alone() {
    let mut config = first_run();
    config.set_api_key("sk-test".to_string());
    let mut store = RecordStore::Empty;
    config.save(&mut store).unwrap();
    config.set_api_key("sk-later".to_string());
    assert_eq!(Config::load(&store).unwrap().get_api_key(), "sk-test");
    assert_eq!(config.get_api_key(), "sk-later");
}

#[test]
fn empty_key_counts_as_no_key() {
    let mut config = first_run();
    config.set_api_key(String::new());
    assert!(!config.has_api_key());
    config.set_api_key("sk-test".to_string());
    assert!(config.has_api_key());
    assert_eq!(config.get_api_key(), "sk-test");
    config.set_api_key(" ".to_string());
    assert!(config.has_api_key());
    config.set_api_key(String::new());
    assert!(!config.has_api_key());
}

#[test]
fn change_model_takes_any_text() {
    let mut config = first_run();
    config.set_api_key("sk-test".to_string());
    config.change_model("no-such-model");
    assert_eq!(config.get_model(), "no-such-model");
    config.change_model("");
    assert_eq!(config.get_model(), "");
    assert_eq!(config.get_api_key(), "sk-test");
}

#[test]
fn reset_twice_is_reset_once() {
    let mut config = first_run();
    config.set_api_key("sk-test".to_string());
    config.change_model("gpt-4");
    config.previous_chat_log.push(Message::new("user".to_string(), "Hi".to_string()));
    config.add_chat_log(completion("cmpl-1", "Hello"));

    config.reset();
    assert!(config.previous_chat_log.is_empty());
    assert_eq!(config.get_api_key(), "sk-test");
    assert_eq!(config.get_model(), "gpt-4");
    assert_eq!(config.chat_completions.len(), 1);

    config.reset();
    assert!(config.previous_chat_log.is_empty());
    assert_eq!(config.get_api_key(), "sk-test");
    assert_eq!(config.get_model(), "gpt-4");
    assert_eq!(config.chat_completions.len(), 1);
    assert_eq!(config.chat_completions[0].id, "cmpl-1");
}

#[test]
fn completions_are_kept_in_order_of_arrival() {
    let mut config = first_run();
    config.add_chat_log(completion("cmpl-1", "one"));
    config.add_chat_log(completion("cmpl-2", "two"));
    config.add_chat_log(completion("cmpl-1", "one"));
    let ids: Vec<&str> = config.chat_completions.iter().map(|c| c.id.as_str()).collect();
    assert_eq!(ids, vec!["cmpl-1", "cmpl-2", "cmpl-1"]);
    assert!(config.previous_chat_log.is_empty());
}

#[test]
fn turns_are_kept_in_order_of_arrival() {
    let mut gpt = GPT::new(first_run());
    let said = ["a", "b", "b", "c", ""];
    for (n, text) in said.iter().enumerate() {
        let role = if n % 2 == 0 { "user" } else { "assistant" };
        gpt.append_to_log(Message::new(role.to_string(), text.to_string()));
        assert_eq!(gpt.config.previous_chat_log.len(), n + 1);
    }
    let kept: Vec<&str> =
        gpt.config.previous_chat_log.iter().map(|m| m.content.as_str()).collect();
    assert_eq!(kept, vec!["a", "b", "b", "c", ""]);
    let roles: Vec<&str> = gpt.config.previous_chat_log.iter().map(|m| m.role.as_str()).collect();
    assert_eq!(roles, vec!["user", "assistant", "user", "assistant", "user"]);
}

#[test]
fn turns_of_one_role_may_follow_each_other() {
    let mut gpt = GPT::new(first_run());
    gpt.append_to_log(Message::new("assistant".to_string(), "first".to_string()));
    gpt.append_to_log(Message::new("assistant".to_string(), "second".to_string()));
    assert_eq!(gpt.config.previous_chat_log.len(), 2);
    assert_eq!(gpt.config.previous_chat_log[0].content, "first");
    assert_eq!(gpt.config.previous_chat_log[1].content, "second");
}

#[test]
fn clones_are_equal_and_apart() {
    let original = completion("cmpl-1", "Hello");
    let mut copy = original.clone();
    assert_eq!(copy.id, original.id);
    assert_eq!(copy.choices[0].message.content, "Hello");
    copy.choices[0].message.content.push('!');
    assert_eq!(original.choices[0].message.content, "Hello");
    let turn = Message::new("user".to_string(), "Hi".to_string());
    let twin = turn.clone();
    assert_eq!((twin.role.as_str(), twin.content.as_str()), ("user", "Hi"));
}

#[test]
fn every_error_has_its_sentence() {
    assert_eq!(ChatError::StoreUnavailable.message(), "the settings store is unavailable");
    assert_eq!(ChatError::Auth.message(), "the API key was not accepted");
    assert_eq!(ChatError::Transport.message(), "the request to the completion service failed");
    assert_eq!(
        ChatError::MalformedResponse.message(),
        "the completion service sent an unreadable answer"
    );
}

#[test]
fn record_is_kept_under_fixed_names() {
    assert_eq!(RECORD_KEY, "config");
    assert_eq!(DATABASE_NAME, "config");
    assert_eq!(APPLICATION, ("org", "gptcli", "chat"));
}

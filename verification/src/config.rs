use crate::error::ChatError;
use crate::gpt::{completions_of, turns_of, ChatCompletion, ChatCompletionView, Message, MessageView};
use crate::store::RecordStore;
use vstd::prelude::*;

verus! {

/// The settings, as a value of the model. The operations on the settings
/// are stated as functions on this value.
pub struct ConfigView {
    pub api_key: Seq<char>,
    pub model: Seq<char>,
    pub chat_completions: Seq<ChatCompletionView>,
    pub previous_chat_log: Seq<MessageView>,
}

impl ConfigView {
    /// The settings of a user who has never run the client.
    pub open spec fn fresh() -> ConfigView {
        ConfigView {
            api_key: Seq::empty(),
            model: "gpt-3.5-turbo"@,
            chat_completions: Seq::empty(),
            previous_chat_log: Seq::empty(),
        }
    }

    /// An empty key counts as no key.
    pub open spec fn has_api_key(self) -> bool {
        self.api_key.len() > 0
    }

    /// The settings with `api_key` for a key.
    pub open spec fn with_api_key(self, api_key: Seq<char>) -> ConfigView {
        ConfigView { api_key, ..self }
    }

    /// The settings with `model` for a model.
    pub open spec fn with_model(self, model: Seq<char>) -> ConfigView {
        ConfigView { model, ..self }
    }

    /// The conversation is forgotten; the completions received stay.
    pub open spec fn reset(self) -> ConfigView {
        ConfigView { previous_chat_log: Seq::empty(), ..self }
    }

    /// The settings with `turn` at the end of the conversation.
    pub open spec fn with_turn(self, turn: MessageView) -> ConfigView {
        ConfigView { previous_chat_log: self.previous_chat_log.push(turn), ..self }
    }

    /// The settings after `turns` were added one by one, the first of them first.
    pub open spec fn with_turns(self, turns: Seq<MessageView>) -> ConfigView
        decreases turns.len(),
    {
        if turns.len() == 0 {
            self
        } else {
            self.with_turn(turns[0]).with_turns(turns.drop_first())
        }
    }

    /// The settings with `record` as the last completion received.
    pub open spec fn with_completion(self, record: ChatCompletionView) -> ConfigView {
        ConfigView { chat_completions: self.chat_completions.push(record), ..self }
    }
}

/// What the client keeps between runs: the credential, the model to ask,
/// every completion received, and the conversation so far.
#[derive(Debug)]
pub struct Config {
    pub api_key: String,
    pub model: String,
    pub chat_completions: Vec<ChatCompletion>,
    pub previous_chat_log: Vec<Message>,
}

impl View for Config {
    type V = ConfigView;

    open spec fn view(&self) -> ConfigView {
        ConfigView {
            api_key: self.api_key@,
            model: self.model@,
            chat_completions: completions_of(self.chat_completions@),
            previous_chat_log: turns_of(self.previous_chat_log@),
        }
    }
}

impl Clone for Config {
    fn clone(&self) -> (copy: Self)
        ensures
            copy@ == self@,
    {
        let chat_completions = self.chat_completions.clone();
        let previous_chat_log = self.previous_chat_log.clone();
        assert(completions_of(chat_completions@) =~= completions_of(self.chat_completions@));
        assert(turns_of(previous_chat_log@) =~= turns_of(self.previous_chat_log@));
        Config {
            api_key: self.api_key.clone(),
            model: self.model.clone(),
            chat_completions,
            previous_chat_log,
        }
    }
}

impl Config {
    /// Reads the settings out of the store. A store that holds no record
    /// yields the settings of a first run; a store that cannot be used yields no settings.
    pub fn load(store: &RecordStore) -> (loaded: Result<Config, ChatError>)
        ensures
            match store@.loaded() {
                Ok(settings) => loaded is Ok && loaded->Ok_0@ == settings,
                Err(error) => loaded == Err::<Config, ChatError>(error),
            },
    {
        match store {
            RecordStore::Unavailable => Err(ChatError::StoreUnavailable),
            RecordStore::Holding(record) => Ok(record.clone()),
            RecordStore::Empty => {
                let fresh = Self {
                    api_key: String::new(),
                    model: "gpt-3.5-turbo".to_string(),
                    chat_completions: Vec::new(),
                    previous_chat_log: Vec::new(),
                };
                assert(completions_of(fresh.chat_completions@) =~= Seq::empty());
                assert(turns_of(fresh.previous_chat_log@) =~= Seq::empty());
                Ok(fresh)
            },
        }
    }

    /// Puts the settings, all of them, in place of whatever the store held.
    /// A store that cannot be used is left as it is.
    pub fn save(&self, store: &mut RecordStore) -> (saved: Result<(), ChatError>)
        ensures
            final(store)@ == old(store)@.saved(self@),
            saved == old(store)@.save_result(),
    {
        match store {
            RecordStore::Unavailable => Err(ChatError::StoreUnavailable),
            _ => {
                *store = RecordStore::Holding(self.clone());
                Ok(())
            },
        }
    }

    /// Whether a key is held. An empty key counts as none.
    pub fn has_api_key(&self) -> (has: bool)
        ensures
            has == self@.has_api_key(),
    {
        !self.api_key.as_str().is_empty()
    }

    /// A copy of the key held, empty where none is.
    pub fn get_api_key(&self) -> (api_key: String)
        ensures
            api_key@ == self@.api_key,
    {
        self.api_key.clone()
    }

    /// A copy of the name of the model that requests ask for.
    pub fn get_model(&self) -> (model: String)
        ensures
            model@ == self@.model,
    {
        self.model.clone()
    }

    /// Forgets the conversation, and nothing else.
    pub fn reset(&mut self)
        ensures
            final(self)@ == old(self)@.reset(),
    {
        self.previous_chat_log = Vec::new();
        assert(turns_of(self.previous_chat_log@) =~= Seq::empty());
    }

    /// Takes `model` as the model to ask from now on. Any name is taken:
    /// whether the service knows it shows when a request is answered.
    pub fn change_model(&mut self, model: &str)
        ensures
            final(self)@ == old(self)@.with_model(model@),
    {
        self.model = model.to_string();
    }

    /// Takes `api_key` in place of the key held. Any text is taken, the
    /// empty one too.
    pub fn set_api_key(&mut self, api_key: String)
        ensures
            final(self)@ == old(self)@.with_api_key(api_key@),
    {
        self.api_key = api_key;
    }

    /// Keeps `chat` as the last of the completions received. The
    /// conversation is not touched.
    pub fn add_chat_log(&mut self, chat: ChatCompletion)
        ensures
            final(self)@ == old(self)@.with_completion(chat@),
    {
        self.chat_completions.push(chat);
        assert(completions_of(self.chat_completions@) =~= completions_of(
            old(self).chat_completions@,
        ).push(chat@));
    }
}

/// Turns added one by one end up behind those that were there, in the
/// order in which they were added: after `n` of them the conversation is
/// `n` longer, and one that began empty holds just these. Nothing else
/// in the settings changes.
pub proof fn lemma_turns_keep_order(settings: ConfigView, turns: Seq<MessageView>)
    ensures
        settings.with_turns(turns) == (ConfigView {
            previous_chat_log: settings.previous_chat_log + turns,
            ..settings
        }),
        settings.with_turns(turns).previous_chat_log.len() == settings.previous_chat_log.len()
            + turns.len(),
        forall|i: int|
            0 <= i < turns.len() ==> settings.with_turns(turns).previous_chat_log[
                settings.previous_chat_log.len() + i
            ] == #[trigger] turns[i],
        settings.previous_chat_log.len() == 0 ==> settings.with_turns(turns).previous_chat_log
            == turns,
    decreases turns.len(),
{
    if turns.len() == 0 {
        assert(settings.previous_chat_log + turns =~= settings.previous_chat_log);
    } else {
        let next = settings.with_turn(turns[0]);
        lemma_turns_keep_order(next, turns.drop_first());
        assert(next.previous_chat_log + turns.drop_first() =~= settings.previous_chat_log + turns);
    }
    if settings.previous_chat_log.len() == 0 {
        assert(settings.previous_chat_log + turns =~= turns);
    }
}

/// Forgetting the conversation twice is forgetting it once: it is empty
/// after the first time, and the key, the model and the completions
/// received are as they were.
pub proof fn lemma_reset_twice(settings: ConfigView)
    ensures
        settings.reset().reset() == settings.reset(),
        settings.reset().previous_chat_log == Seq::<MessageView>::empty(),
        settings.reset().api_key == settings.api_key,
        settings.reset().model == settings.model,
        settings.reset().chat_completions == settings.chat_completions,
{
}

/// Once a key is set, a key is held exactly if the one set was not empty,
/// whatever was held before.
pub proof fn lemma_key_held_after_set(settings: ConfigView, api_key: Seq<char>)
    ensures
        settings.with_api_key(api_key).has_api_key() <==> api_key.len() > 0,
        settings.with_api_key(Seq::empty()).has_api_key() == false,
{
}

} // verus!

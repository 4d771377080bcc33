use crate::config::{Config, ConfigView};
use crate::error::ChatError;
use crate::header::{
    header_char_ok, header_text_ok, header_value_from_str, lemma_header_text_by_chars,
};
use crate::store::RecordStore;
use vstd::prelude::*;

verus! {

/// One turn of the conversation, as a value of the model.
pub struct MessageView {
    pub role: Seq<char>,
    pub content: Seq<char>,
}

/// One turn of the conversation: who spoke, and what was said.
#[derive(Debug)]
pub struct Message {
    pub role: String,
    pub content: String,
}

impl View for Message {
    type V = MessageView;

    open spec fn view(&self) -> MessageView {
        MessageView { role: self.role@, content: self.content@ }
    }
}

impl Clone for Message {
    fn clone(&self) -> (copy: Self)
        ensures
            copy@ == self@,
    {
        Message { role: self.role.clone(), content: self.content.clone() }
    }
}

impl Message {
    /// The turn in which `role` says `content`.
    pub fn new(role: String, content: String) -> (turn: Self)
        ensures
            turn@ == (MessageView { role: role@, content: content@ }),
    {
        Self { role, content }
    }
}

/// The turns of a conversation, first to last, as values of the model.
pub open spec fn turns_of(log: Seq<Message>) -> Seq<MessageView> {
    log.map_values(|turn: Message| turn@)
}

/// The token counts the service reports for one completion.
#[derive(Clone, Copy, Debug, PartialEq, Eq, Structural)]
pub struct Usage {
    pub prompt_tokens: i32,
    pub completion_tokens: i32,
    pub total_tokens: i32,
}

/// One candidate reply, as a value of the model.
pub struct ChoiceView {
    pub index: int,
    pub message: MessageView,
    pub finish_reason: Seq<char>,
}

/// One candidate reply inside a completion.
#[derive(Debug)]
pub struct Choice {
    pub index: i32,
    pub message: Message,
    pub finish_reason: String,
}

impl View for Choice {
    type V = ChoiceView;

    open spec fn view(&self) -> ChoiceView {
        ChoiceView {
            index: self.index as int,
            message: self.message@,
            finish_reason: self.finish_reason@,
        }
    }
}

impl Clone for Choice {
    fn clone(&self) -> (copy: Self)
        ensures
            copy@ == self@,
    {
        Choice {
            index: self.index,
            message: self.message.clone(),
            finish_reason: self.finish_reason.clone(),
        }
    }
}

/// The candidate replies of a completion, in the service's order.
pub open spec fn choices_of(choices: Seq<Choice>) -> Seq<ChoiceView> {
    choices.map_values(|choice: Choice| choice@)
}

/// A completion, as a value of the model.
pub struct ChatCompletionView {
    pub id: Seq<char>,
    pub object: Seq<char>,
    pub created: int,
    pub choices: Seq<ChoiceView>,
    pub usage: Usage,
}

/// What the service answers to one request.
#[derive(Debug)]
pub struct ChatCompletion {
    pub id: String,
    pub object: String,
    pub created: i64,
    pub choices: Vec<Choice>,
    pub usage: Usage,
}

impl View for ChatCompletion {
    type V = ChatCompletionView;

    open spec fn view(&self) -> ChatCompletionView {
        ChatCompletionView {
            id: self.id@,
            object: self.object@,
            created: self.created as int,
            choices: choices_of(self.choices@),
            usage: self.usage,
        }
    }
}

impl Clone for ChatCompletion {
    fn clone(&self) -> (copy: Self)
        ensures
            copy@ == self@,
    {
        let choices = self.choices.clone();
        assert(choices_of(choices@) =~= choices_of(self.choices@));
        ChatCompletion {
            id: self.id.clone(),
            object: self.object.clone(),
            created: self.created,
            choices,
            usage: self.usage,
        }
    }
}

/// The completions received so far, oldest first, as values of the model.
pub open spec fn completions_of(records: Seq<ChatCompletion>) -> Seq<ChatCompletionView> {
    records.map_values(|record: ChatCompletion| record@)
}

/// Where every request goes.
pub const GPT_URL: &'static str = "https://api.openai.com/v1/chat/completions";

/// The turn that a question of the user makes.
pub open spec fn user_turn(question: Seq<char>) -> MessageView {
    MessageView { role: "user"@, content: question }
}

/// The value of the authorization header for a credential.
pub open spec fn bearer(api_key: Seq<char>) -> Seq<char> {
    "Bearer "@ + api_key
}

/// One request to the service, as a value of the model.
pub struct RequestView {
    pub authorization: Seq<char>,
    pub model: Seq<char>,
    pub messages: Seq<MessageView>,
}

/// What the caller has to send to `GPT_URL`: the value of the
/// authorization header, and the two members of the JSON body.
#[derive(Debug)]
pub struct Request {
    pub authorization: String,
    pub model: String,
    pub messages: Vec<Message>,
}

impl View for Request {
    type V = RequestView;

    open spec fn view(&self) -> RequestView {
        RequestView {
            authorization: self.authorization@,
            model: self.model@,
            messages: turns_of(self.messages@),
        }
    }
}

/// What came of a request, as a value of the model.
pub enum ReplyView {
    Unreachable,
    Answered { status: u16, completion: Option<ChatCompletionView> },
}

impl ReplyView {
    /// The verdict on a reply. A status of 401 means that the service turned
    /// the credential down; any other status outside 200..=299 is a failed
    /// exchange. An answer in time still fails where its body is no
    /// completion, or a completion without a single choice.
    pub open spec fn outcome(self) -> Result<ChatCompletionView, ChatError> {
        match self {
            ReplyView::Unreachable => Err(ChatError::Transport),
            ReplyView::Answered { status, completion } => {
                if status == 401 {
                    Err(ChatError::Auth)
                } else if !(200 <= status <= 299) {
                    Err(ChatError::Transport)
                } else {
                    match completion {
                        None => Err(ChatError::MalformedResponse),
                        Some(record) => if record.choices.len() == 0 {
                            Err(ChatError::MalformedResponse)
                        } else {
                            Ok(record)
                        },
                    }
                }
            },
        }
    }
}

/// What came of a request, as the caller reports it.
#[derive(Debug)]
pub enum Reply {
    /// No answer arrived: the connection failed, or the body could not be read.
    Unreachable,
    /// The service answered with `status`. `completion` is the body, where
    /// it has the shape of a completion.
    Answered { status: u16, completion: Option<ChatCompletion> },
}

impl View for Reply {
    type V = ReplyView;

    open spec fn view(&self) -> ReplyView {
        match self {
            Reply::Unreachable => ReplyView::Unreachable,
            Reply::Answered { status, completion } => ReplyView::Answered {
                status: *status,
                completion: match completion {
                    Some(record) => Some(record@),
                    None => None,
                },
            },
        }
    }
}

/// A conversation with the service, as a value of the model.
pub struct GPTView {
    pub previous: Seq<MessageView>,
    pub config: ConfigView,
}

impl GPTView {
    /// The conversation on other settings.
    pub open spec fn with_config(self, config: ConfigView) -> GPTView {
        GPTView { config, ..self }
    }

    /// The conversation once `question` was put.
    pub open spec fn asked(self, question: Seq<char>) -> GPTView {
        self.with_config(self.config.with_turn(user_turn(question)))
    }

    /// Whether the credential can be sent at all.
    pub open spec fn can_send(self) -> bool {
        header_text_ok(bearer(self.config.api_key))
    }

    /// The request that carries the conversation as it stands.
    pub open spec fn request(self) -> RequestView {
        RequestView {
            authorization: bearer(self.config.api_key),
            model: self.config.model,
            messages: self.config.previous_chat_log,
        }
    }

    /// The conversation once `record` was received: its first choice is the
    /// next turn, and the whole of it is kept.
    pub open spec fn answered(self, record: ChatCompletionView) -> GPTView {
        self.with_config(self.config.with_turn(record.choices[0].message).with_completion(record))
    }
}

/// A conversation with the service: the settings it runs on, which hold
/// the turns so far.
#[derive(Debug)]
pub struct GPT {
    pub previous: Vec<Message>,
    pub config: Config,
}

impl View for GPT {
    type V = GPTView;

    open spec fn view(&self) -> GPTView {
        GPTView { previous: turns_of(self.previous@), config: self.config@ }
    }
}

impl GPT {
    /// Starts a conversation on the settings given.
    pub fn new(config: Config) -> (gpt: Self)
        ensures
            gpt@ == (GPTView { previous: Seq::empty(), config: config@ }),
    {
        let gpt = Self { previous: Vec::new(), config };
        assert(turns_of(gpt.previous@) =~= Seq::empty());
        gpt
    }

    /// Takes `key` as the credential of every request from now on.
    pub fn update_api_key(&mut self, key: &String)
        ensures
            final(self)@ == old(self)@.with_config(old(self)@.config.with_api_key(key@)),
    {
        self.config.set_api_key(key.clone());
    }

    /// Writes the settings of this conversation into the store.
    pub fn save(&mut self, store: &mut RecordStore) -> (saved: Result<(), ChatError>)
        ensures
            final(self)@ == old(self)@,
            final(store)@ == old(store)@.saved(old(self)@.config),
            saved == old(store)@.save_result(),
    {
        self.config.save(store)
    }

    /// Puts a question: the turn of the user joins the conversation, and the
    /// request that the caller has to send comes back. The request holds the
    /// whole conversation, the question last.
    ///
    /// Where the credential cannot stand in a header there is nothing to
    /// send. The question has joined the conversation all the same.
    pub fn ask_question(&mut self, question: &str) -> (sent: Result<Request, ChatError>)
        ensures
            final(self)@ == old(self)@.asked(question@),
            match sent {
                Ok(request) => {
                    &&& final(self)@.can_send()
                    &&& request@ == final(self)@.request()
                    &&& request@.messages.len() == old(self)@.config.previous_chat_log.len() + 1
                    &&& request@.messages.last() == user_turn(question@)
                },
                Err(error) => !final(self)@.can_send() && error == ChatError::Auth,
            },
    {
        let message_body = Message::new("user".to_string(), question.to_string());
        self.append_to_log(message_body);

        let mut authorization = "Bearer ".to_string();
        authorization.append(self.config.api_key.as_str());
        match header_value_from_str(authorization.as_str()) {
            Err(_) => Err(ChatError::Auth),
            Ok(_) => {
                let messages = self.config.previous_chat_log.clone();
                assert(turns_of(messages@) =~= turns_of(self.config.previous_chat_log@));
                Ok(Request { authorization, model: self.config.get_model(), messages })
            },
        }
    }

    /// Takes in what came of the request. A reply that passes joins the
    /// conversation and is handed back; any other leaves everything as it was.
    pub fn receive_reply(&mut self, reply: Reply) -> (received: Result<ChatCompletion, ChatError>)
        ensures
            match reply@.outcome() {
                Ok(record) => {
                    &&& received is Ok
                    &&& received->Ok_0@ == record
                    &&& final(self)@ == old(self)@.answered(record)
                },
                Err(error) => {
                    &&& received is Err
                    &&& received->Err_0 == error
                    &&& final(self)@ == old(self)@
                },
            },
    {
        match reply {
            Reply::Unreachable => Err(ChatError::Transport),
            Reply::Answered { status, completion } => {
                if status == 401 {
                    Err(ChatError::Auth)
                } else if status < 200 || status > 299 {
                    Err(ChatError::Transport)
                } else {
                    match completion {
                        None => Err(ChatError::MalformedResponse),
                        Some(chat_completion) => {
                            if chat_completion.choices.len() == 0 {
                                Err(ChatError::MalformedResponse)
                            } else {
                                self.append_to_log(chat_completion.choices[0].message.clone());
                                self.config.add_chat_log(chat_completion.clone());
                                Ok(chat_completion)
                            }
                        },
                    }
                }
            },
        }
    }

    /// Adds `m` at the end of the conversation, whoever speaks in it and
    /// whoever spoke last.
    pub fn append_to_log(&mut self, m: Message)
        ensures
            final(self)@ == old(self)@.with_config(old(self)@.config.with_turn(m@)),
    {
        self.config.previous_chat_log.push(m);
        assert(turns_of(self.config.previous_chat_log@) =~= turns_of(
            old(self).config.previous_chat_log@,
        ).push(m@));
    }

    /// Takes `model` as the model that requests ask for from now on.
    pub fn change_model(&mut self, model: &str)
        ensures
            final(self)@ == old(self)@.with_config(old(self)@.config.with_model(model@)),
    {
        self.config.change_model(model)
    }

    /// Forgets the conversation. Key, model and the completions received stay.
    pub fn reset_chat_log(&mut self)
        ensures
            final(self)@ == old(self)@.with_config(old(self)@.config.reset()),
    {
        self.config.reset()
    }
}

/// Whether a question can be sent depends on the key alone: on each of
/// its characters being one that a header takes.
pub proof fn lemma_can_send_by_key(gpt: GPTView)
    ensures
        gpt.can_send() <==> forall|i: int|
            0 <= i < gpt.config.api_key.len() ==> header_char_ok(#[trigger] gpt.config.api_key[i]),
{
    reveal_strlit("Bearer ");
    let key = gpt.config.api_key;
    let text = bearer(key);
    lemma_header_text_by_chars(text);
    if forall|i: int| 0 <= i < key.len() ==> header_char_ok(#[trigger] key[i]) {
        assert forall|i: int| 0 <= i < text.len() implies header_char_ok(#[trigger] text[i]) by {
            if i >= 7 {
                assert(text[i] == key[i - 7]);
            }
        }
    }
    if gpt.can_send() {
        assert forall|i: int| 0 <= i < key.len() implies header_char_ok(#[trigger] key[i]) by {
            assert(key[i] == text[i + 7]);
        }
    }
}

/// A question and the reply to it, taken together: where the reply passes,
/// the conversation has grown by the question and then by the first choice
/// of the completion, the completion is the last of those kept, and key and
/// model are untouched. Where it does not pass, the question stays.
pub proof fn lemma_question_then_reply(gpt: GPTView, question: Seq<char>, reply: ReplyView)
    ensures
        match reply.outcome() {
            Ok(record) => {
                let after = gpt.asked(question).answered(record);
                &&& after.config.previous_chat_log == gpt.config.previous_chat_log.push(
                    user_turn(question),
                ).push(record.choices[0].message)
                &&& after.config.chat_completions == gpt.config.chat_completions.push(record)
                &&& after.config.api_key == gpt.config.api_key
                &&& after.config.model == gpt.config.model
                &&& after.previous == gpt.previous
            },
            Err(_) => gpt.asked(question).config.previous_chat_log
                == gpt.config.previous_chat_log.push(user_turn(question)),
        },
{
}

} // verus!

//! Configuration and state for the optional LLM assistant attached to a
//! session.  Pure bookkeeping; the network side lives outside the crate.

use vstd::prelude::*;

verus! {

/// A message in an LLM conversation.
#[derive(Clone, Debug)]
pub struct LlmMessage {
    /// The role (user, assistant, system).
    pub role: String,
    /// The message content.
    pub content: String,
}

/// LLM operation state.
#[derive(Clone, Copy, Debug, PartialEq, Eq, Structural)]
pub enum LlmState {
    /// Ready to process requests.
    Ready,
    /// Currently processing a request.
    Processing,
    /// An error occurred.
    Error,
}

impl LlmState {
    /// Returns true if ready.
    pub fn is_ready(&self) -> (r: bool)
        ensures
            r == (self is Ready),
    {
        matches!(self, LlmState::Ready)
    }

    /// Returns true if processing.
    pub fn is_processing(&self) -> (r: bool)
        ensures
            r == (self is Processing),
    {
        matches!(self, LlmState::Processing)
    }

    /// Returns true if in error state.
    pub fn is_error(&self) -> (r: bool)
        ensures
            r == (self is Error),
    {
        matches!(self, LlmState::Error)
    }

    /// Sets the state.
    pub fn set_state(&mut self, state: Self)
        ensures
            *final(self) == state,
    {
        *self = state;
    }
}

impl Default for LlmState {
    /// A fresh LLM starts out ready.
    fn default() -> (r: Self)
        ensures
            r == LlmState::Ready,
    {
        LlmState::Ready
    }
}

/// LLM configuration of one session.
pub struct LlmConfig {
    /// Whether LLM features are enabled.
    pub enable: bool,
    /// API key for the LLM service.
    pub key: String,
    /// Model name.
    pub model: String,
    /// Stored conversation history.
    pub stored_message: Vec<LlmMessage>,
    /// Current conversation.
    pub current_message: Vec<LlmMessage>,
    /// Associated file names.
    pub file_name: Vec<String>,
    /// Current LLM state.
    pub state: LlmState,
}

impl LlmConfig {
    /// Creates a new LLM configuration: disabled, no key, the default model,
    /// no messages, ready.
    pub fn new() -> (r: Self)
        ensures
            !r.enable,
            r.key@ == Seq::<char>::empty(),
            r.model@ == "glm-4-flash"@,
            r.stored_message@ == Seq::<LlmMessage>::empty(),
            r.current_message@ == Seq::<LlmMessage>::empty(),
            r.file_name@ == Seq::<String>::empty(),
            r.state == LlmState::Ready,
    {
        LlmConfig {
            enable: false,
            key: String::new(),
            model: String::from_str("glm-4-flash"),
            stored_message: Vec::new(),
            current_message: Vec::new(),
            file_name: Vec::new(),
            state: LlmState::Ready,
        }
    }

    /// Gets a mutable reference to the enable flag.
    pub fn enable(&mut self) -> (r: &mut bool)
        ensures
            *r == old(self).enable,
            *final(self) == (LlmConfig { enable: *final(r), ..*old(self) }),
    {
        &mut self.enable
    }

    /// Sets the API key.
    pub fn set_key(&mut self, key: &str)
        ensures
            final(self).key@ == key@,
            *final(self) == (LlmConfig { key: final(self).key, ..*old(self) }),
    {
        self.key = key.to_owned();
    }

    /// Sets the model name.
    pub fn set_model(&mut self, model: &str)
        ensures
            final(self).model@ == model@,
            *final(self) == (LlmConfig { model: final(self).model, ..*old(self) }),
    {
        self.model = model.to_owned();
    }

    /// Gets the model name.
    pub fn get_model(&self) -> (r: &str)
        ensures
            r@ == self.model@,
    {
        self.model.as_str()
    }

    /// Stores a message in the conversation history.
    pub fn store_message(&mut self, message: LlmMessage)
        ensures
            final(self).stored_message@ == old(self).stored_message@.push(message),
            *final(self) == (LlmConfig { stored_message: final(self).stored_message, ..*old(
                self,
            ) }),
    {
        self.stored_message.push(message);
    }

    /// Gets the stored messages.
    pub fn get_stored_message(&self) -> (r: &Vec<LlmMessage>)
        ensures
            r@ == self.stored_message@,
    {
        &self.stored_message
    }

    /// Sets the current conversation.
    pub fn set_current_message(&mut self, message: Vec<LlmMessage>)
        ensures
            final(self).current_message@ == message@,
            *final(self) == (LlmConfig { current_message: final(self).current_message, ..*old(
                self,
            ) }),
    {
        self.current_message = message;
    }

    /// Gets the current conversation.
    pub fn get_current_message(&self) -> (r: &Vec<LlmMessage>)
        ensures
            r@ == self.current_message@,
    {
        &self.current_message
    }

    /// Clears the current conversation.
    pub fn clear_current_message(&mut self)
        ensures
            final(self).current_message@ == Seq::<LlmMessage>::empty(),
            *final(self) == (LlmConfig { current_message: final(self).current_message, ..*old(
                self,
            ) }),
    {
        self.current_message.clear();
    }

    /// Adds a file name.
    pub fn set_file_name(&mut self, file_name: &str)
        ensures
            final(self).file_name@.len() == old(self).file_name@.len() + 1,
            final(self).file_name@.last()@ == file_name@,
            final(self).file_name@.subrange(0, old(self).file_name@.len() as int) == old(
                self,
            ).file_name@,
            *final(self) == (LlmConfig { file_name: final(self).file_name, ..*old(self) }),
    {
        self.file_name.push(file_name.to_owned());
        proof {
            assert(final(self).file_name@.subrange(0, old(self).file_name@.len() as int) =~= old(
                self,
            ).file_name@);
        }
    }
}

impl Default for LlmConfig {
    /// The configuration a fresh session starts with.
    fn default() -> (r: Self)
        ensures
            !r.enable,
            r.model@ == "glm-4-flash"@,
            r.state == LlmState::Ready,
    {
        LlmConfig::new()
    }
}

} // verus!

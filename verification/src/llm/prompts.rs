//! System prompts, conversation templates and a prompt builder.
use vstd::prelude::*;
use crate::text::{push_str, str_eq, string_of};

verus! {

/// Text of [`default_assistant`].
pub const DEFAULT_ASSISTANT_TEXT: &'static str = "You are a helpful, harmless, and honest AI assistant. \
         You provide clear, accurate, and concise responses. \
         If you're unsure about something, you say so rather than guessing. \
         You aim to be respectful and professional in all interactions.";

/// Text of [`voice_assistant`].
pub const VOICE_ASSISTANT_TEXT: &'static str = "You are a voice AI assistant designed for natural spoken conversation. \
         Keep your responses conversational, concise, and appropriate for speech. \
         Avoid using formatting like markdown, bullet points, or long lists unless specifically requested. \
         Speak naturally as if having a real conversation. \
         If you need to present information, do so in a flowing, spoken format rather than structured text. \
         Keep responses under 100 words unless more detail is specifically requested.";

/// Text of [`smart_home_assistant`].
pub const SMART_HOME_ASSISTANT_TEXT: &'static str = "You are a smart home AI assistant. You can help with:
         - Controlling lights, temperature, and other devices
         - Setting reminders and timers
         - Answering questions about home automation
         - Providing weather updates and news
         - Playing music and entertainment
         
         Keep responses brief and action-oriented.
         When controlling devices, confirm actions taken.
         Always prioritize user safety and privacy.";

/// Text of [`technical_assistant`].
pub const TECHNICAL_ASSISTANT_TEXT: &'static str = "You are a technical AI assistant with expertise in:
         - Programming and software development
         - System administration and DevOps
         - Hardware and electronics
         - Troubleshooting and problem-solving
         
         Provide accurate technical information, code examples when helpful,
         and step-by-step solutions for technical problems.
         Ask clarifying questions when the technical context is unclear.";

/// Text of [`creative_assistant`].
pub const CREATIVE_ASSISTANT_TEXT: &'static str = "You are a creative AI assistant that helps with:
         - Writing and storytelling
         - Brainstorming and ideation
         - Art and design concepts
         - Music and creative projects
         
         Be imaginative, inspiring, and supportive of creative endeavors.
         Offer multiple perspectives and alternatives when appropriate.
         Encourage experimentation and creative thinking.";

/// Text of [`conversation_timeout`].
pub const CONVERSATION_TIMEOUT_TEXT: &'static str = "I haven't heard from you in a while. Just say my wake word when you need me again!";

/// Text of [`goodbye`].
pub const GOODBYE_TEXT: &'static str = "Goodbye! Feel free to call on me anytime you need assistance.";

/// Text of [`processing`].
pub const PROCESSING_TEXT: &'static str = "Let me think about that for a moment...";

/// Canned system prompts.
pub struct SystemPrompts;

impl SystemPrompts {
    /// Default assistant system prompt.
    pub fn default_assistant() -> (r: &'static str)
        ensures
            r@ == DEFAULT_ASSISTANT_TEXT@,
    {
        DEFAULT_ASSISTANT_TEXT
    }

    /// Voice assistant specific prompt.
    pub fn voice_assistant() -> (r: &'static str)
        ensures
            r@ == VOICE_ASSISTANT_TEXT@,
    {
        VOICE_ASSISTANT_TEXT
    }

    /// Smart home assistant prompt.
    pub fn smart_home_assistant() -> (r: &'static str)
        ensures
            r@ == SMART_HOME_ASSISTANT_TEXT@,
    {
        SMART_HOME_ASSISTANT_TEXT
    }

    /// Technical assistant prompt.
    pub fn technical_assistant() -> (r: &'static str)
        ensures
            r@ == TECHNICAL_ASSISTANT_TEXT@,
    {
        TECHNICAL_ASSISTANT_TEXT
    }

    /// Creative assistant prompt.
    pub fn creative_assistant() -> (r: &'static str)
        ensures
            r@ == CREATIVE_ASSISTANT_TEXT@,
    {
        CREATIVE_ASSISTANT_TEXT
    }
}

/// The error kinds `voice_error` has a message of its own for.
pub open spec fn voice_error_text(error_type: Seq<char>) -> Seq<char> {
    if error_type == "audio"@ {
        "Sorry, something went wrong: I had trouble hearing you. Could you try again?"@
    } else if error_type == "processing"@ {
        "I'm having some trouble processing that. Please try again."@
    } else if error_type == "network"@ {
        "I'm having connectivity issues. Please check your connection and try again."@
    } else if error_type == "busy"@ {
        "I'm currently busy with another task. Please wait a moment and try again."@
    } else {
        "Sorry, something went wrong. Please try again."@
    }
}

/// Short spoken phrases.
pub struct ConversationTemplates;

impl ConversationTemplates {
    /// A wake word greeting.
    pub fn wake_word_greeting(wake_word: &str) -> (r: String)
        ensures
            r@ == "Hello! I heard you say '"@ + wake_word@ + "'. How can I help you?"@,
    {
        let mut s = string_of("Hello! I heard you say '");
        push_str(&mut s, wake_word);
        push_str(&mut s, "'. How can I help you?");
        s
    }

    /// A spoken error message for the given kind of error.
    pub fn voice_error(error_type: &str) -> (r: String)
        ensures
            r@ == voice_error_text(error_type@),
    {
        if str_eq(error_type, "audio") {
            string_of("Sorry, something went wrong: I had trouble hearing you. Could you try again?")
        } else if str_eq(error_type, "processing") {
            string_of("I'm having some trouble processing that. Please try again.")
        } else if str_eq(error_type, "network") {
            string_of("I'm having connectivity issues. Please check your connection and try again.")
        } else if str_eq(error_type, "busy") {
            string_of("I'm currently busy with another task. Please wait a moment and try again.")
        } else {
            string_of("Sorry, something went wrong. Please try again.")
        }
    }

    /// A timeout message.
    pub fn conversation_timeout() -> (r: &'static str)
        ensures
            r@ == CONVERSATION_TIMEOUT_TEXT@,
    {
        CONVERSATION_TIMEOUT_TEXT
    }

    /// A goodbye message.
    pub fn goodbye() -> (r: &'static str)
        ensures
            r@ == GOODBYE_TEXT@,
    {
        GOODBYE_TEXT
    }

    /// A clarification request about `context`.
    pub fn clarification_request(context: &str) -> (r: String)
        ensures
            r@ == "I want to make sure I understand correctly. You're asking about "@ + context@
                + ". Is that right?"@,
    {
        let mut s = string_of("I want to make sure I understand correctly. You're asking about ");
        push_str(&mut s, context);
        push_str(&mut s, ". Is that right?");
        s
    }

    /// A thinking/processing message.
    pub fn processing() -> (r: &'static str)
        ensures
            r@ == PROCESSING_TEXT@,
    {
        PROCESSING_TEXT
    }

    /// A message announcing the use of a tool.
    pub fn tool_execution(tool_name: &str) -> (r: String)
        ensures
            r@ == "I'm using "@ + tool_name@ + " to help with that..."@,
    {
        let mut s = string_of("I'm using ");
        push_str(&mut s, tool_name);
        push_str(&mut s, " to help with that...");
        s
    }

    /// A completion confirmation for `task`.
    pub fn task_completed(task: &str) -> (r: String)
        ensures
            r@ == "I've completed "@ + task@ + ". Is there anything else you need?"@,
    {
        let mut s = string_of("I've completed ");
        push_str(&mut s, task);
        push_str(&mut s, ". Is there anything else you need?");
        s
    }
}

/// The parts joined, with `sep` between neighbours.
pub open spec fn join_with(parts: Seq<Seq<char>>, sep: Seq<char>) -> Seq<char>
    decreases parts.len(),
{
    if parts.len() == 0 {
        Seq::empty()
    } else if parts.len() == 1 {
        parts[0]
    } else {
        join_with(parts.drop_last(), sep) + sep + parts.last()
    }
}

/// Every part holds at least one character.
pub open spec fn parts_nonempty(parts: Seq<Seq<char>>) -> bool {
    forall|i: int| 0 <= i < parts.len() ==> #[trigger] parts[i].len() > 0
}

/// Adding one part to a builder adds exactly that part to what `build`
/// gives: after the text built so far and one blank line, or alone when
/// that text is empty. Earlier parts are left as they were.
pub proof fn lemma_build_after_add(parts: Seq<Seq<char>>, part: Seq<char>)
    requires
        parts_nonempty(parts),
    ensures
        join_with(parts.push(part), "\n\n"@) == if join_with(parts, "\n\n"@).len() == 0 {
            part
        } else {
            join_with(parts, "\n\n"@) + "\n\n"@ + part
        },
{
    assert(parts.push(part).drop_last() =~= parts);
    if parts.len() == 1 {
        assert(parts[0].len() > 0);
    } else if parts.len() > 1 {
        assert(parts.last().len() > 0);
        assert(join_with(parts, "\n\n"@) == join_with(parts.drop_last(), "\n\n"@) + "\n\n"@ + parts.last());
    }
}

/// Builds a prompt out of labelled parts, in the order they were added.
pub struct PromptBuilder {
    parts: Vec<String>,
}

impl PromptBuilder {
    #[verifier::type_invariant]
    spec fn inv(self) -> bool {
        parts_nonempty(self@)
    }
}

impl View for PromptBuilder {
    type V = Seq<Seq<char>>;

    closed spec fn view(&self) -> Seq<Seq<char>> {
        self.parts@.map_values(|p: String| p@)
    }
}

impl PromptBuilder {
    pub fn new() -> (r: Self)
        ensures
            r@ == Seq::<Seq<char>>::empty(),
            parts_nonempty(r@),
    {
        let r = Self { parts: Vec::new() };
        assert(r@ =~= Seq::<Seq<char>>::empty());
        r
    }

    fn add_part(self, label: &str, text: &str) -> (r: Self)
        requires
            label@.len() > 0,
        ensures
            r@ == self@.push(label@ + text@),
            parts_nonempty(r@),
    {
        proof {
            use_type_invariant(&self);
        }
        let mut part = string_of(label);
        push_str(&mut part, text);
        let mut parts = self.parts;
        parts.push(part);
        let ghost v = parts@.map_values(|p: String| p@);
        assert(v =~= self@.push(label@ + text@));
        assert(parts_nonempty(v)) by {
            assert forall|i: int| 0 <= i < v.len() implies #[trigger] v[i].len() > 0 by {
                if i < self@.len() {
                    assert(self@[i].len() > 0);
                }
            }
        }
        let r = Self { parts };
        r
    }

    pub fn add_system_role(self, prompt: &str) -> (r: Self)
        ensures
            r@ == self@.push("System: "@ + prompt@),
            parts_nonempty(r@),
    {
        proof {
            reveal_strlit("System: ");
        }
        self.add_part("System: ", prompt)
    }

    pub fn add_context(self, context: &str) -> (r: Self)
        ensures
            r@ == self@.push("Context: "@ + context@),
            parts_nonempty(r@),
    {
        proof {
            reveal_strlit("Context: ");
        }
        self.add_part("Context: ", context)
    }

    pub fn add_instruction(self, instruction: &str) -> (r: Self)
        ensures
            r@ == self@.push("Instruction: "@ + instruction@),
            parts_nonempty(r@),
    {
        proof {
            reveal_strlit("Instruction: ");
        }
        self.add_part("Instruction: ", instruction)
    }

    pub fn add_example(self, example: &str) -> (r: Self)
        ensures
            r@ == self@.push("Example: "@ + example@),
            parts_nonempty(r@),
    {
        proof {
            reveal_strlit("Example: ");
        }
        self.add_part("Example: ", example)
    }

    pub fn add_constraint(self, constraint: &str) -> (r: Self)
        ensures
            r@ == self@.push("Constraint: "@ + constraint@),
            parts_nonempty(r@),
    {
        proof {
            reveal_strlit("Constraint: ");
        }
        self.add_part("Constraint: ", constraint)
    }

    /// The parts, in order, separated by blank lines.
    pub fn build(self) -> (r: String)
        ensures
            r@ == join_with(self@, "\n\n"@),
            parts_nonempty(self@),
    {
        proof {
            use_type_invariant(&self);
        }
        let mut s = String::new();
        let n = self.parts.len();
        let mut i: usize = 0;
        while i < n
            invariant
                i <= n,
                n == self.parts@.len(),
                self@ == self.parts@.map_values(|p: String| p@),
                s@ == join_with(self@.take(i as int), "\n\n"@),
            decreases n - i,
        {
            let ghost before = s@;
            if i > 0 {
                push_str(&mut s, "\n\n");
            }
            push_str(&mut s, self.parts[i].as_str());
            proof {
                let t = self@.take(i + 1);
                assert(t.drop_last() =~= self@.take(i as int));
                assert(t.last() == self.parts@[i as int]@);
                if i == 0 {
                    assert(s@ =~= t[0]);
                }
            }
            i += 1;
        }
        assert(self@.take(n as int) =~= self@);
        s
    }
}

impl Default for PromptBuilder {
    fn default() -> (r: Self)
        ensures
            r@ == Seq::<Seq<char>>::empty(),
    {
        Self::new()
    }
}

} // verus!

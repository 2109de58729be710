//! User and developer instructions as transcript messages, and the test
//! that recognizes an instructions message when a transcript is resumed.

use crate::models::ContentItem;
use crate::models::ResponseItem;
use crate::strutil::spec_starts_with;
use crate::strutil::starts_with_prefix;
use vstd::prelude::*;

verus! {

/// The tag an older transcript wrapped user instructions in.
pub const USER_INSTRUCTIONS_OPEN_TAG_LEGACY: &'static str = "<user_instructions>";

/// The heading a current instructions message starts with.
pub const USER_INSTRUCTIONS_PREFIX: &'static str = "# AGENTS.md instructions for ";

/// The user's standing instructions for a directory.
#[derive(Debug)]
pub struct UserInstructions {
    pub directory: String,
    pub text: String,
}

impl UserInstructions {
    /// Whether a message's content is an instructions message: a single
    /// text item beginning with the current heading or the legacy tag.
    pub fn is_user_instructions(message: &Vec<ContentItem>) -> (r: bool)
        ensures
            r == spec_is_user_instructions(message@),
    {
        if message.len() != 1 {
            return false;
        }
        match &message[0] {
            ContentItem::InputText { text } => {
                starts_with_prefix(text.as_str(), USER_INSTRUCTIONS_PREFIX) || starts_with_prefix(
                    text.as_str(),
                    USER_INSTRUCTIONS_OPEN_TAG_LEGACY,
                )
            },
            _ => false,
        }
    }

    /// The transcript message carrying these instructions: a user-role
    /// message whose single text item is the heading, the directory, and
    /// the instruction text inside an INSTRUCTIONS block.
    pub fn into_response_item(self) -> (r: ResponseItem)
        ensures
            r matches ResponseItem::Message { id, role, content } && id is None && role@ == "user"@
                && content@.len() == 1 && (content@[0] matches ContentItem::InputText { text }
                && text@ == USER_INSTRUCTIONS_PREFIX@ + self.directory@ + "\n\n<INSTRUCTIONS>\n"@
                + self.text@ + "\n</INSTRUCTIONS>"@),
    {
        let mut text = String::from_str(USER_INSTRUCTIONS_PREFIX);
        text.append(self.directory.as_str());
        text.append("\n\n<INSTRUCTIONS>\n");
        text.append(self.text.as_str());
        text.append("\n</INSTRUCTIONS>");
        let mut content: Vec<ContentItem> = Vec::new();
        content.push(ContentItem::InputText { text });
        ResponseItem::Message { id: None, role: String::from_str("user"), content }
    }
}

/// A single text item beginning with the current heading or the legacy tag.
pub open spec fn spec_is_user_instructions(message: Seq<ContentItem>) -> bool {
    &&& message.len() == 1
    &&& message[0] matches ContentItem::InputText { text } && (spec_starts_with(
        text@,
        USER_INSTRUCTIONS_PREFIX@,
    ) || spec_starts_with(text@, USER_INSTRUCTIONS_OPEN_TAG_LEGACY@))
}

/// Instructions injected by the integrating application.
#[derive(Debug)]
pub struct DeveloperInstructions {
    text: String,
}

impl DeveloperInstructions {
    /// The instruction text this value carries.
    pub closed spec fn spec_text(&self) -> Seq<char> {
        self.text@
    }

    pub fn new(text: String) -> (r: Self)
        ensures
            r.spec_text() == text@,
    {
        DeveloperInstructions { text }
    }

    pub fn into_text(self) -> (r: String)
        ensures
            r@ == self.spec_text(),
    {
        self.text
    }

    /// The transcript message carrying these instructions, under the
    /// developer role.
    pub fn into_response_item(self) -> (r: ResponseItem)
        ensures
            r matches ResponseItem::Message { id, role, content } && id is None && role@
                == "developer"@ && content@.len() == 1 && (content@[0]
                matches ContentItem::InputText { text } && text@ == self.spec_text()),
    {
        let mut content: Vec<ContentItem> = Vec::new();
        content.push(ContentItem::InputText { text: self.text });
        ResponseItem::Message { id: None, role: String::from_str("developer"), content }
    }
}

} // verus!

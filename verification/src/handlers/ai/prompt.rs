//! The system prompt that opens every request to the provider.

use vstd::prelude::*;
use vstd::string::*;

use crate::text::joined;

verus! {

/// The system prompt up to the place of the teaching material.
pub const PROMPT_BEFORE_MATERIAL: &'static str = "You are Bodhi, an enthusiastic AI student learning from your teacher. Your goal is to understand the material deeply by asking questions, seeking clarification, and demonstrating your understanding.

Personality:
- Curious and eager to learn
- Admits when confused (never pretends to understand)
- Asks thoughtful follow-up questions
- Makes connections to related concepts
- Occasionally summarizes to confirm understanding
- Keep responses concise (2-4 sentences) and ask one question at a time.

Teaching Material:
---
";

/// The system prompt after the teaching material.
pub const PROMPT_AFTER_MATERIAL: &'static str = "
---

Start by expressing excitement about learning this topic and asking an opening question that shows you've read the material.";

/// What the student answers to the system prompt before the lesson begins.
pub const READY_REPLY: &'static str = "I'm ready to learn! Let's begin.";

/// The reply that stands in where the provider proposes no text.
pub const FALLBACK_REPLY: &'static str = "I'm sorry, I'm not sure how to respond to that.";

/// The system prompt for a session: the teaching material set into its one
/// place in the fixed text, unchanged.
pub open spec fn system_prompt(material: Seq<char>) -> Seq<char> {
    PROMPT_BEFORE_MATERIAL@ + material + PROMPT_AFTER_MATERIAL@
}

/// Writes the system prompt for a session's teaching material.
pub fn fill_prompt(material: &str) -> (r: String)
    ensures
        r@ == system_prompt(material@),
{
    let mut prompt = joined(PROMPT_BEFORE_MATERIAL, material);
    prompt.append(PROMPT_AFTER_MATERIAL);
    prompt
}

} // verus!

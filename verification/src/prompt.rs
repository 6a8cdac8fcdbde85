//! Prompt selection: a pure, total mapping from the request-time
//! selector value ("flag") to the system prompt and the speak-first
//! policy that govern the upstream session.

use vstd::prelude::*;

verus! {

/// Immutable prompt configuration, selected once per session before the
/// upstream session is started and never mutated afterwards.
pub struct PromptConfig {
    pub system_prompt: String,
    pub ai_speaks_first: bool,
}

/// The default interpreter prompt, used for an absent or unrecognized
/// selector.
pub open spec fn spec_default_prompt() -> Seq<char> {
    "You are a fast simultaneous interpreter. Translate constantly. Do not wait for long context. Keep answers short and immediate."@
}

/// The prompt selected by "flagA".
pub open spec fn spec_flag_a_prompt() -> Seq<char> {
    r#"Listen to Korean instructions. Respond in Korean with:
"네, [instruction summary]을/를 [Name1]와 [Name2]에게 전달 완료했습니다."

Use Vietnamese names: Nguyễn Văn Minh, Trần Thị Lan, Lê Hoàng Nam, Phạm Thị Hoa, Võ Văn Đức

Example:
Input: "3번 밭 고추는 꼭지를 짧게 따"
Output: "네, 고추 꼭지 짧게 따기를 Nguyễn Văn Minh와 Trần Thị Lan에게 전달 완료했습니다."
"#@
}

/// The prompt selected by "flagB".
pub open spec fn spec_flag_b_prompt() -> Seq<char> {
    "Placeholder prompt for flagB. To be defined later."@
}

/// The view of the optional selector string.
pub open spec fn flag_view(flag: &Option<String>) -> Option<Seq<char>> {
    match flag {
        Some(s) => Some(s@),
        None => None,
    }
}

/// The system prompt that a selector value chooses: the two named
/// variants each map to their own prompt, everything else (including an
/// absent selector) maps to the default interpreter prompt.
pub open spec fn spec_selected_prompt(flag: Option<Seq<char>>) -> Seq<char> {
    if flag == Some("flagA"@) {
        spec_flag_a_prompt()
    } else if flag == Some("flagB"@) {
        spec_flag_b_prompt()
    } else {
        spec_default_prompt()
    }
}

/// The speak-first policy that a selector value chooses: true for the
/// two named variants, false otherwise.
pub open spec fn spec_speaks_first(flag: Option<Seq<char>>) -> bool {
    flag == Some("flagA"@) || flag == Some("flagB"@)
}

/// An unrecognized selector value chooses exactly what an absent
/// selector chooses: the default interpreter prompt, with speak-first
/// false.
pub proof fn lemma_unrecognized_selector_is_default(flag: Option<Seq<char>>)
    requires
        flag != Some("flagA"@),
        flag != Some("flagB"@),
    ensures
        spec_selected_prompt(flag) == spec_selected_prompt(None),
        spec_selected_prompt(flag) == spec_default_prompt(),
        !spec_speaks_first(flag),
{
}

/// Pure selector: maps the request-time selector value to the prompt
/// configuration.  Total over all inputs, with an explicit default.
pub fn select_prompt(flag: &Option<String>) -> (r: PromptConfig)
    ensures
        r.system_prompt@ == spec_selected_prompt(flag_view(flag)),
        r.ai_speaks_first == spec_speaks_first(flag_view(flag)),
{
    match flag {
        Some(s) => {
            if *s == String::from_str("flagA") {
                PromptConfig {
                    system_prompt: String::from_str(
                        r#"Listen to Korean instructions. Respond in Korean with:
"네, [instruction summary]을/를 [Name1]와 [Name2]에게 전달 완료했습니다."

Use Vietnamese names: Nguyễn Văn Minh, Trần Thị Lan, Lê Hoàng Nam, Phạm Thị Hoa, Võ Văn Đức

Example:
Input: "3번 밭 고추는 꼭지를 짧게 따"
Output: "네, 고추 꼭지 짧게 따기를 Nguyễn Văn Minh와 Trần Thị Lan에게 전달 완료했습니다."
"#,
                    ),
                    ai_speaks_first: true,
                }
            } else if *s == String::from_str("flagB") {
                PromptConfig {
                    system_prompt: String::from_str(
                        "Placeholder prompt for flagB. To be defined later.",
                    ),
                    ai_speaks_first: true,
                }
            } else {
                PromptConfig {
                    system_prompt: String::from_str(
                        "You are a fast simultaneous interpreter. Translate constantly. Do not wait for long context. Keep answers short and immediate.",
                    ),
                    ai_speaks_first: false,
                }
            }
        },
        None => {
            PromptConfig {
                system_prompt: String::from_str(
                    "You are a fast simultaneous interpreter. Translate constantly. Do not wait for long context. Keep answers short and immediate.",
                ),
                ai_speaks_first: false,
            }
        },
    }
}

} // verus!

//! Building the generation prompt: substituting a transcription into the
//! note template's placeholder.

use vstd::prelude::*;

verus! {

use crate::text::{find_occurrence, first_occurrence, lemma_first_occurrence};
use vstd::string::{StrSliceExecFns, StringExecFns};

/// The placeholder that the note template must carry.
pub open spec fn placeholder() -> Seq<char> {
    "{transcription}"@
}

/// The template's text with the transcription substituted for the
/// placeholder occurrence at `i`.
pub open spec fn substituted(template: Seq<char>, transcription: Seq<char>, i: int) -> Seq<char> {
    template.subrange(0, i) + transcription + template.subrange(
        i + placeholder().len(),
        template.len() as int,
    )
}

/// Why a prompt could not be built.
#[derive(Clone, Copy, Debug, PartialEq, Eq, Structural)]
pub enum TemplateError {
    /// The template carries no `{transcription}` placeholder.
    MissingPlaceholder,
}

/// Substitutes the transcription into the template's first placeholder
/// occurrence; a template that carries none is rejected.
pub fn build_prompt(template: &str, transcription: &str) -> (r: Result<String, TemplateError>)
    ensures
        match first_occurrence(template@, placeholder(), 0) {
            Some(i) => r matches Ok(p) && p@ == substituted(template@, transcription@, i),
            None => r == Result::<String, TemplateError>::Err(TemplateError::MissingPlaceholder),
        },
{
    proof {
        reveal_strlit("{transcription}");
    }
    match find_occurrence(template, "{transcription}", 0) {
        None => Err(TemplateError::MissingPlaceholder),
        Some(i) => {
            proof {
                lemma_first_occurrence(template@, placeholder(), 0);
            }
            let tl = template.unicode_len();
            let head = template.substring_char(0, i);
            let tail = template.substring_char(i + 15, tl);
            let mut out = String::from_str(head);
            out.append(transcription);
            out.append(tail);
            proof {
                assert(out@ =~= substituted(template@, transcription@, i as int));
            }
            Ok(out)
        },
    }
}

} // verus!

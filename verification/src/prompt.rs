use crate::text::{
    chars_to_string, has_prefix, lower_seq, spec_lines, split_lines, starts_with_lit, str_to_chars,
    subvec, to_lower_chars,
};
use vstd::prelude::*;

verus! {

/// Who speaks in one message of a prompt file.
#[derive(Clone, Copy, Debug, PartialEq, Eq, Structural)]
pub enum MessageRole {
    System,
    User,
    Assistant,
}

/// One message of a parsed prompt file.
#[derive(Clone, Debug)]
pub struct PromptMessage {
    pub role: MessageRole,
    pub content: String,
}

/// The model backend a prompt can be executed against.
#[derive(Clone, Copy, Debug, PartialEq, Eq, Structural)]
pub enum Provider {
    OpenAI,
    Anthropic,
    DeepSeek,
    OpenRouter,
    Ollama,
    AzureOpenAI,
    Google,
    AiHubMix,
    GitHub,
    Custom,
}

/// The role a second-level heading announces, if any. A heading line is
/// "## " followed by text whose ASCII lower-casing starts with "system",
/// "user" or "assistant".
pub open spec fn heading_role(line: Seq<char>) -> Option<MessageRole> {
    if !has_prefix(line, "## "@) {
        None
    } else {
        let rest = lower_seq(line.subrange(3, line.len() as int));
        if has_prefix(rest, "system"@) {
            Some(MessageRole::System)
        } else if has_prefix(rest, "user"@) {
            Some(MessageRole::User)
        } else if has_prefix(rest, "assistant"@) {
            Some(MessageRole::Assistant)
        } else {
            None
        }
    }
}

/// Closes the section being read, if one is open.
pub open spec fn close_section(
    done: Seq<(MessageRole, Seq<char>)>,
    cur: Option<(MessageRole, Seq<char>)>,
) -> Seq<(MessageRole, Seq<char>)> {
    match cur {
        Some(m) => done.push(m),
        None => done,
    }
}

/// Folding the lines of a prompt file into messages: the messages completed so
/// far, and the heading and content of the section being read. Text before the
/// first recognized heading belongs to no section and is dropped; every
/// content line keeps a trailing '\n'.
pub open spec fn parse_state(lines: Seq<Seq<char>>) -> (
    Seq<(MessageRole, Seq<char>)>,
    Option<(MessageRole, Seq<char>)>,
)
    decreases lines.len(),
{
    if lines.len() == 0 {
        (Seq::empty(), None)
    } else {
        let (done, cur) = parse_state(lines.drop_last());
        let line = lines.last();
        match heading_role(line) {
            Some(role) => (close_section(done, cur), Some((role, Seq::empty()))),
            None => match cur {
                Some((role, content)) => (done, Some((role, content + line + seq!['\n']))),
                None => (done, None),
            },
        }
    }
}

/// The messages of a prompt text: its lines folded into sections, the last
/// section closed.
pub open spec fn spec_messages(s: Seq<char>) -> Seq<(MessageRole, Seq<char>)> {
    close_section(parse_state(spec_lines(s)).0, parse_state(spec_lines(s)).1)
}

/// The role announced by one line, if it is a recognized heading.
fn heading_role_of(line: &Vec<char>) -> (r: Option<MessageRole>)
    ensures
        r == heading_role(line@),
{
    if !starts_with_lit(line, "## ") {
        return None;
    }
    proof {
        reveal_strlit("## ");
    }
    let rest = subvec(line, 3, line.len());
    let lower = to_lower_chars(&rest);
    if starts_with_lit(&lower, "system") {
        Some(MessageRole::System)
    } else if starts_with_lit(&lower, "user") {
        Some(MessageRole::User)
    } else if starts_with_lit(&lower, "assistant") {
        Some(MessageRole::Assistant)
    } else {
        None
    }
}

/// Parses a markdown prompt file into its messages.
///
/// Second-level headings open sections: "## " followed by text that starts,
/// case-insensitively, with "system", "user" or "assistant". Every line until
/// the next such heading is that section's content, kept verbatim (formatting,
/// blank lines and code fences included). Text outside any section is ignored.
/// A file with no recognized section at all is rejected.
pub fn parse_markdown_prompt(content: &str) -> (r: Result<Vec<PromptMessage>, String>)
    ensures
        r is Ok <==> spec_messages(content@).len() > 0,
        r matches Ok(msgs) ==> {
            &&& msgs@.len() == spec_messages(content@).len()
            &&& forall|i: int|
                0 <= i < msgs@.len() ==> #[trigger] msgs@[i].role == spec_messages(content@)[i].0
                    && msgs@[i].content@ == spec_messages(content@)[i].1
        },
        r matches Err(e) ==> e@ == "No valid messages found in the prompt file"@,
{
    let chars = str_to_chars(content);
    let lines = split_lines(&chars);
    let nlines = lines.len();
    let ghost lseq = spec_lines(content@);
    let mut done: Vec<PromptMessage> = Vec::new();
    let mut cur_role: Option<MessageRole> = None;
    let mut cur_content: Vec<char> = Vec::new();
    let mut i: usize = 0;
    proof {
        assert(lseq.subrange(0, 0) =~= Seq::<Seq<char>>::empty());
    }
    while i < nlines
        invariant
            i <= nlines,
            nlines == lines@.len(),
            lines@.len() == lseq.len(),
            forall|j: int| 0 <= j < lseq.len() ==> #[trigger] lines@[j]@ == lseq[j],
            done@.len() == parse_state(lseq.subrange(0, i as int)).0.len(),
            forall|j: int|
                0 <= j < done@.len() ==> #[trigger] done@[j].role == parse_state(
                    lseq.subrange(0, i as int),
                ).0[j].0 && done@[j].content@ == parse_state(lseq.subrange(0, i as int)).0[j].1,
            match cur_role {
                Some(role) => parse_state(lseq.subrange(0, i as int)).1 == Some(
                    (role, cur_content@),
                ),
                None => parse_state(lseq.subrange(0, i as int)).1 is None,
            },
        decreases nlines - i,
    {
        proof {
            assert(lseq.subrange(0, i + 1).drop_last() =~= lseq.subrange(0, i as int));
        }
        let line = &lines[i];
        match heading_role_of(line) {
            Some(role) => {
                if let Some(prev) = cur_role {
                    done.push(PromptMessage { role: prev, content: chars_to_string(&cur_content) });
                }
                cur_role = Some(role);
                cur_content = Vec::new();
            },
            None => {
                if cur_role.is_some() {
                    let mut j: usize = 0;
                    let llen = line.len();
                    while j < llen
                        invariant
                            j <= llen,
                            llen == line@.len(),
                            cur_content@ == (parse_state(lseq.subrange(0, i as int)).1->0).1
                                + line@.subrange(0, j as int),
                            cur_role is Some,
                            parse_state(lseq.subrange(0, i as int)).1 matches Some(m) && m.0
                                == cur_role->0,
                        decreases llen - j,
                    {
                        cur_content.push(line[j]);
                        j = j + 1;
                        proof {
                            assert(cur_content@ =~= (parse_state(lseq.subrange(0, i as int)).1->0).1
                                + line@.subrange(0, j as int));
                        }
                    }
                    cur_content.push('\n');
                    proof {
                        assert(line@.subrange(0, llen as int) =~= line@);
                        assert(cur_content@ =~= (parse_state(lseq.subrange(0, i as int)).1->0).1
                            + lines@[i as int]@ + seq!['\n']);
                    }
                }
            },
        }
        i = i + 1;
    }
    proof {
        assert(lseq.subrange(0, nlines as int) =~= lseq);
    }
    if let Some(prev) = cur_role {
        done.push(PromptMessage { role: prev, content: chars_to_string(&cur_content) });
    }
    if done.len() == 0 {
        Err(String::from_str("No valid messages found in the prompt file"))
    } else {
        Ok(done)
    }
}

} // verus!


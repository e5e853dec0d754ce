//! Composing a user message: the text, the referenced documents given to
//! the model as context, and the blocks of the attachments.

use vstd::prelude::*;
use crate::attachments::{Attachment, BlockView, attachment_result, block_view, blocks_view, process_attachment,
    result_view};
use crate::model::{ContentBlock, opt_view};
use crate::pdf::PdfReading;
use crate::text::{is_blank, is_blank_seq, push_str, to_owned_string};

verus! {

/// The parts joined by `sep`.
pub open spec fn join_seq(parts: Seq<Seq<char>>, sep: Seq<char>) -> Seq<char>
    decreases parts.len(),
{
    if parts.len() == 0 {
        Seq::empty()
    } else if parts.len() == 1 {
        parts[0]
    } else {
        join_seq(parts.drop_last(), sep) + sep + parts.last()
    }
}

/// `parts.join(sep)`.
pub fn join_strings(parts: &Vec<String>, sep: &str) -> (r: String)
    ensures
        r@ == join_seq(parts@.map_values(|s: String| s@), sep@),
{
    let ghost views = parts@.map_values(|s: String| s@);
    let mut out = String::new();
    let mut i: usize = 0;
    while i < parts.len()
        invariant
            views == parts@.map_values(|s: String| s@),
            i <= parts@.len(),
            out@ == join_seq(views.take(i as int), sep@),
        decreases parts@.len() - i,
    {
        proof {
            assert(views.take(i + 1).drop_last() =~= views.take(i as int));
            assert(views.take(i + 1).last() == parts@[i as int]@);
        }
        if i > 0 {
            push_str(&mut out, sep);
        } else {
            assert(out@ =~= Seq::<char>::empty());
        }
        push_str(&mut out, parts[i].as_str());
        proof {
            if i == 0 {
                assert(out@ =~= join_seq(views.take(1), sep@));
            }
        }
        i = i + 1;
    }
    proof {
        assert(views.take(views.len() as int) =~= views);
    }
    out
}

/// A tab of a stored document: its title and its Markdown, if converted.
pub struct TabContent {
    pub title: String,
    pub markdown: Option<String>,
}

/// The text of a document given as context: the Markdown of its tabs,
/// separated by blank lines, each under a `## title` heading when the
/// document has several tabs.
pub open spec fn doc_content_spec(tabs: Seq<TabContent>, tab_count: nat) -> Seq<char>
    decreases tabs.len(),
{
    if tabs.len() == 0 {
        Seq::empty()
    } else {
        let before = doc_content_spec(tabs.drop_last(), tab_count);
        match tabs.last().markdown {
            None => before,
            Some(md) => {
                let sep = if before.len() > 0 { "\n\n"@ } else { Seq::empty() };
                let head = if tab_count > 1 { "## "@ + tabs.last().title@ + "\n\n"@ } else { Seq::empty() };
                before + sep + head + md@
            },
        }
    }
}

pub fn document_content(tabs: &Vec<TabContent>) -> (r: String)
    ensures
        r@ == doc_content_spec(tabs@, tabs@.len()),
{
    let n = tabs.len();
    let mut out = String::new();
    let mut i: usize = 0;
    while i < n
        invariant
            n == tabs@.len(),
            i <= n,
            out@ == doc_content_spec(tabs@.take(i as int), n as nat),
        decreases n - i,
    {
        proof {
            assert(tabs@.take(i + 1).drop_last() =~= tabs@.take(i as int));
            assert(tabs@.take(i + 1).last() == tabs@[i as int]);
        }
        match &tabs[i].markdown {
            Some(md) => {
                let ghost before = out@;
                if out.unicode_len() > 0 {
                    push_str(&mut out, "\n\n");
                }
                if n > 1 {
                    push_str(&mut out, "## ");
                    push_str(&mut out, tabs[i].title.as_str());
                    push_str(&mut out, "\n\n");
                }
                push_str(&mut out, md.as_str());
                proof {
                    let sep = if before.len() > 0 { "\n\n"@ } else { Seq::<char>::empty() };
                    let head = if n > 1 { "## "@ + tabs@[i as int].title@ + "\n\n"@ } else { Seq::<char>::empty() };
                    assert(out@ =~= before + sep + head + md@);
                }
            },
            None => {},
        }
        i = i + 1;
    }
    proof {
        assert(tabs@.take(n as int) =~= tabs@);
    }
    out
}

/// A referenced document as context for the model; nothing when it has no
/// content.
pub open spec fn doc_block_spec(id: Seq<char>, title: Seq<char>, content: Seq<char>) -> Option<Seq<char>> {
    if content.len() == 0 {
        None
    } else {
        Some("<document id=\""@ + id + "\" title=\""@ + title + "\">\n"@ + content + "\n</document>"@)
    }
}

pub fn document_block(id: &str, title: &str, content: &str) -> (r: Option<String>)
    ensures
        match r {
            Some(s) => doc_block_spec(id@, title@, content@) == Some(s@),
            None => doc_block_spec(id@, title@, content@) is None,
        },
{
    if content.unicode_len() == 0 {
        return None;
    }
    let mut s = to_owned_string("<document id=\"");
    push_str(&mut s, id);
    push_str(&mut s, "\" title=\"");
    push_str(&mut s, title);
    push_str(&mut s, "\">\n");
    push_str(&mut s, content);
    push_str(&mut s, "\n</document>");
    Some(s)
}

/// The instruction given after the documents.
pub open spec fn citation_instruction() -> Seq<char> {
    "When referring to information from these documents in your response, use markdown links in the format [relevant text](noema://doc/DOCUMENT_ID) where DOCUMENT_ID is the document's id from the document tags above."@
}

/// The text block of a message with referenced documents: the documents
/// and the instruction to cite them, then the message; without documents
/// the message itself, unless it is blank.
pub open spec fn message_text_spec(parts: Seq<Seq<char>>, message: Seq<char>) -> Option<Seq<char>> {
    if parts.len() > 0 {
        Some(
            "<referenced_documents>\n"@ + join_seq(parts, "\n\n"@) + "\n</referenced_documents>\n\n"@
                + citation_instruction() + "\n\n"@ + message,
        )
    } else if !is_blank_seq(message) {
        Some(message)
    } else {
        None
    }
}

pub fn message_text(document_parts: &Vec<String>, message: String) -> (r: Option<String>)
    ensures
        match r {
            Some(s) => message_text_spec(document_parts@.map_values(|p: String| p@), message@) == Some(s@),
            None => message_text_spec(document_parts@.map_values(|p: String| p@), message@) is None,
        },
{
    if document_parts.len() > 0 {
        let mut s = to_owned_string("<referenced_documents>\n");
        let joined = join_strings(document_parts, "\n\n");
        push_str(&mut s, joined.as_str());
        push_str(&mut s, "\n</referenced_documents>\n\n");
        push_str(
            &mut s,
            "When referring to information from these documents in your response, use markdown links in the format [relevant text](noema://doc/DOCUMENT_ID) where DOCUMENT_ID is the document's id from the document tags above.",
        );
        push_str(&mut s, "\n\n");
        push_str(&mut s, message.as_str());
        Some(s)
    } else if !is_blank(message.as_str()) {
        Some(message)
    } else {
        None
    }
}

/// The error of the first attachment that failed, if any.
pub open spec fn first_error(rs: Seq<Result<Seq<BlockView>, Seq<char>>>) -> Option<Seq<char>>
    decreases rs.len(),
{
    if rs.len() == 0 {
        None
    } else {
        match rs[0] {
            Err(e) => Some(e),
            Ok(_) => first_error(rs.drop_first()),
        }
    }
}

/// The blocks of the attachments, in order.
pub open spec fn all_blocks(rs: Seq<Result<Seq<BlockView>, Seq<char>>>) -> Seq<BlockView>
    decreases rs.len(),
{
    if rs.len() == 0 {
        Seq::empty()
    } else {
        all_blocks(rs.drop_last()) + match rs.last() {
            Ok(b) => b,
            Err(_) => Seq::empty(),
        }
    }
}

/// A message's blocks: its text, then each attachment's blocks; the first
/// attachment that fails fails the message; a message with no block is
/// refused with `empty_error`.
pub open spec fn message_spec(
    text: Option<Seq<char>>,
    rs: Seq<Result<Seq<BlockView>, Seq<char>>>,
    empty_error: Seq<char>,
) -> Result<Seq<BlockView>, Seq<char>> {
    match first_error(rs) {
        Some(e) => Err(e),
        None => {
            let blocks = match text {
                Some(t) => seq![BlockView::Text(t)],
                None => Seq::empty(),
            } + all_blocks(rs);
            if blocks.len() == 0 {
                Err(empty_error)
            } else {
                Ok(blocks)
            }
        },
    }
}

/// Attachments are processed in order until one fails.
pub open spec fn processed_in_order<F: Fn(&[u8]) -> PdfReading>(
    attachments: Seq<Attachment>,
    render: F,
    rs: Seq<Result<Seq<BlockView>, Seq<char>>>,
) -> bool {
    &&& rs.len() <= attachments.len()
    &&& forall|i: int| 0 <= i < rs.len() ==> attachment_result(attachments[i], render, #[trigger] rs[i])
    &&& forall|i: int| 0 <= i < rs.len() - 1 ==> (#[trigger] rs[i]) is Ok
    &&& (rs.len() == attachments.len() || (rs.len() > 0 && rs.last() is Err))
}

proof fn lemma_first_error_ok_prefix(rs: Seq<Result<Seq<BlockView>, Seq<char>>>)
    requires
        forall|i: int| 0 <= i < rs.len() ==> (#[trigger] rs[i]) is Ok,
    ensures
        first_error(rs) is None,
    decreases rs.len(),
{
    if rs.len() > 0 {
        assert forall|i: int| 0 <= i < rs.drop_first().len() implies (#[trigger] rs.drop_first()[i]) is Ok by {
            assert(rs.drop_first()[i] == rs[i + 1]);
        }
        lemma_first_error_ok_prefix(rs.drop_first());
    }
}

proof fn lemma_first_error_last(rs: Seq<Result<Seq<BlockView>, Seq<char>>>, e: Seq<char>)
    requires
        rs.len() > 0,
        forall|i: int| 0 <= i < rs.len() - 1 ==> (#[trigger] rs[i]) is Ok,
        rs.last() == Err::<Seq<BlockView>, Seq<char>>(e),
    ensures
        first_error(rs) == Some(e),
    decreases rs.len(),
{
    if rs.len() > 1 {
        assert forall|i: int| 0 <= i < rs.drop_first().len() - 1 implies (#[trigger] rs.drop_first()[i]) is Ok by {
            assert(rs.drop_first()[i] == rs[i + 1]);
        }
        lemma_first_error_last(rs.drop_first(), e);
    }
}

/// Builds the blocks of a message from its text block and its attachments
/// (see `message_spec`); `read_pdf` runs the PDF readers on the data of PDFs.
pub fn message_blocks<F: Fn(&[u8]) -> PdfReading>(
    text: Option<String>,
    attachments: &Vec<Attachment>,
    read_pdf: F,
    empty_error: &str,
) -> (r: Result<Vec<ContentBlock>, String>)
    requires
        forall|b: &[u8]| read_pdf.requires((b,)),
    ensures
        exists|rs: Seq<Result<Seq<BlockView>, Seq<char>>>|
            processed_in_order(attachments@, read_pdf, rs) && result_view(r) == message_spec(
                opt_view(text),
                rs,
                empty_error@,
            ),
{
    let ghost tv = opt_view(text);
    let mut content: Vec<ContentBlock> = Vec::new();
    match text {
        Some(t) => {
            content.push(ContentBlock::Text { text: t });
        },
        None => {},
    }
    let ghost head = blocks_view(content@);
    assert(head =~= match tv {
        Some(t) => seq![BlockView::Text(t)],
        None => Seq::<BlockView>::empty(),
    });
    let ghost mut rs: Seq<Result<Seq<BlockView>, Seq<char>>> = Seq::empty();
    let mut i: usize = 0;
    while i < attachments.len()
        invariant
            forall|b: &[u8]| read_pdf.requires((b,)),
            i <= attachments@.len(),
            rs.len() == i,
            forall|k: int| 0 <= k < i ==> attachment_result(attachments@[k], read_pdf, #[trigger] rs[k]),
            forall|k: int| 0 <= k < i ==> (#[trigger] rs[k]) is Ok,
            blocks_view(content@) == head + all_blocks(rs),
        decreases attachments@.len() - i,
    {
        let res = process_attachment(&attachments[i], &read_pdf);
        let ghost rv = result_view(res);
        match res {
            Ok(mut blocks) => {
                let ghost before = content@;
                let ghost added = blocks@;
                content.append(&mut blocks);
                proof {
                    assert(blocks_view(content@) =~= blocks_view(before) + blocks_view(added));
                    let old_rs = rs;
                    rs = rs.push(rv);
                    assert(rs.drop_last() =~= old_rs);
                }
                i = i + 1;
            },
            Err(e) => {
                proof {
                    rs = rs.push(rv);
                    lemma_first_error_last(rs, e@);
                    assert(processed_in_order(attachments@, read_pdf, rs));
                }
                return Err(e);
            },
        }
    }
    proof {
        lemma_first_error_ok_prefix(rs);
        assert(processed_in_order(attachments@, read_pdf, rs));
    }
    if content.len() == 0 {
        return Err(to_owned_string(empty_error));
    }
    Ok(content)
}

} // verus!

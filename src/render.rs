//! Turning one task snapshot into the text a user sees.
//!
//! Three views exist: the result of a submission, the result of an approval,
//! and the full status check. The first two shorten long output; the status
//! check splits it into a primary message and ordered follow-ups.

use vstd::prelude::*;
use crate::chunking::{ceil_div, lemma_chunks_join, lemma_chunks_shape, output_chunks, split_output, views};
use crate::model::{ApprovalOption, ApprovalRequest, TaskResponse, status_glyph, status_label};
use crate::text::{decimal, is_infix, push_decimal};

verus! {

/// Output up to this many characters is shown whole in the status view.
pub const STATUS_INLINE_LIMIT: usize = 1200;

/// Size of each follow-up slice of output in the status view.
pub const FOLLOW_UP_SIZE: usize = 1900;

/// Output longer than this is cut in the submission view.
pub const SUBMIT_OUTPUT_CAP: usize = 1500;

/// Output longer than this is cut in the approval view.
pub const APPROVAL_OUTPUT_CAP: usize = 1800;

/// `s` inside a fenced block, on lines of its own.
pub open spec fn fenced(s: Seq<char>) -> Seq<char> {
    "\n```\n"@ + s + "\n```"@
}

/// One approval option as a list line: `- `id`: label`.
pub open spec fn option_line(o: ApprovalOption) -> Seq<char> {
    "- `"@ + o.id@ + "`: "@ + o.label@
}

/// The option lines, in the given order, joined by newlines.
pub open spec fn option_lines(opts: Seq<ApprovalOption>) -> Seq<char>
    decreases opts.len(),
{
    if opts.len() == 0 {
        Seq::empty()
    } else if opts.len() == 1 {
        option_line(opts[0])
    } else {
        option_lines(opts.drop_last()) + "\n"@ + option_line(opts.last())
    }
}

/// The approval section: a title, the description, how to answer, and the
/// options.
pub open spec fn approval_block(title: Seq<char>, a: ApprovalRequest, task_id: Seq<char>) -> Seq<char> {
    "\n\n**"@ + title + ":**\n"@ + a.description@ + "\n\nUse `/approve task_id:"@ + task_id
        + " option:<option>` to respond.\n\nOptions:\n"@ + option_lines(a.options@)
}

/// The approval section when one is present, else nothing.
pub open spec fn approval_part(title: Seq<char>, a: Option<ApprovalRequest>, task_id: Seq<char>) -> Seq<char> {
    match a {
        Some(a) => approval_block(title, a, task_id),
        None => Seq::empty(),
    }
}

/// The error section when an error is present, else nothing.
pub open spec fn error_part(e: Option<String>) -> Seq<char> {
    match e {
        Some(e) => "\n\n**Error:**"@ + fenced(e@),
        None => Seq::empty(),
    }
}

/// A labelled output section, or nothing when the output is empty.
pub open spec fn output_part(shown: Seq<char>, output: Seq<char>) -> Seq<char> {
    if output.len() == 0 { Seq::empty() } else { "\n\n**Output:**"@ + fenced(shown) }
}

/// The output of the submission view: whole up to the cap, else cut, with a
/// note that gives the full length and points to the status command.
pub open spec fn submit_shown(output: Seq<char>, task_id: Seq<char>) -> Seq<char> {
    if output.len() <= SUBMIT_OUTPUT_CAP {
        output
    } else {
        output.take(SUBMIT_OUTPUT_CAP as int) + "...\n\n>>> (truncated - "@ + decimal(output.len())
            + " chars total) <<<\nUse `/status task_id:"@ + task_id + "` for full output"@
    }
}

/// The output of the approval view: whole up to the cap, else cut with a note.
pub open spec fn approval_shown(output: Seq<char>) -> Seq<char> {
    if output.len() <= APPROVAL_OUTPUT_CAP {
        output
    } else {
        output.take(APPROVAL_OUTPUT_CAP as int) + "...\n(truncated)"@
    }
}

/// The message that answers a task submission.
pub open spec fn submit_view(t: TaskResponse) -> Seq<char> {
    status_glyph(t.status) + " **Task "@ + status_label(t.status) + "**\n\n**Status:** "@
        + status_label(t.status) + "\n**Task ID:** `"@ + t.task_id@ + "`\n**Session:** `"@
        + t.session_id@ + "`"@
        + output_part(submit_shown(t.output@, t.task_id@), t.output@)
        + error_part(t.error)
        + approval_part("Approval Required"@, t.approval_request, t.task_id@)
}

/// The message that answers an approval; an approval in the new snapshot is
/// a further one, and is announced as such.
pub open spec fn approval_view(t: TaskResponse) -> Seq<char> {
    status_glyph(t.status) + " **Approval Processed**\n\n**Status:** "@ + status_label(t.status)
        + "\n**Task ID:** `"@ + t.task_id@ + "`"@
        + output_part(approval_shown(t.output@), t.output@)
        + error_part(t.error)
        + approval_part("Additional Approval Required"@, t.approval_request, t.task_id@)
}

/// The label of output slice `k` of `n` in the status view.
pub open spec fn chunk_label(k: nat, n: nat) -> Seq<char> {
    "**Output ("@ + decimal(k) + "/"@ + decimal(n) + "):**"@
}

/// The output slices of the status view.
pub open spec fn status_chunks(output: Seq<char>) -> Seq<Seq<char>> {
    output_chunks(output, STATUS_INLINE_LIMIT as nat, FOLLOW_UP_SIZE as nat)
}

/// The output section of the primary status message.
pub open spec fn status_output_part(output: Seq<char>) -> Seq<char> {
    if output.len() == 0 {
        Seq::empty()
    } else if output.len() <= STATUS_INLINE_LIMIT {
        "\n\n**Output:**"@ + fenced(output)
    } else {
        "\n\n"@ + chunk_label(1, status_chunks(output).len()) + fenced(status_chunks(output)[0])
    }
}

/// The primary message of the status view.
pub open spec fn status_view(t: TaskResponse) -> Seq<char> {
    status_glyph(t.status) + " **Task Status**\n\n**Status:** "@ + status_label(t.status)
        + "\n**Task ID:** `"@ + t.task_id@ + "`\n**Session:** `"@ + t.session_id@
        + "`\n**Created:** "@ + t.created_at@ + "\n**Updated:** "@ + t.updated_at@
        + status_output_part(t.output@)
        + error_part(t.error)
        + approval_part("Awaiting Approval"@, t.approval_request, t.task_id@)
}

/// Follow-up message `i` (from zero) of the status view.
pub open spec fn follow_up_message(output: Seq<char>, i: int) -> Seq<char> {
    chunk_label((i + 2) as nat, status_chunks(output).len()) + fenced(status_chunks(output)[i + 1])
}

/// The follow-up messages of the status view, in order: none when the
/// output fits in the primary message.
pub open spec fn status_follow_ups(output: Seq<char>) -> Seq<Seq<char>> {
    if output.len() <= STATUS_INLINE_LIMIT {
        Seq::empty()
    } else {
        Seq::new((status_chunks(output).len() - 1) as nat, |i: int| follow_up_message(output, i))
    }
}

/// What the status check sends: a primary message, then follow-ups in order.
pub struct StatusMessages {
    pub content: String,
    pub follow_ups: Vec<String>,
}

fn push_fenced(out: &mut String, s: &str)
    ensures
        final(out)@ == old(out)@ + fenced(s@),
{
    out.append("\n```\n");
    out.append(s);
    out.append("\n```");
    assert(final(out)@ =~= old(out)@ + fenced(s@));
}

fn push_error_part(out: &mut String, e: &Option<String>)
    ensures
        final(out)@ == old(out)@ + error_part(*e),
{
    match e {
        Some(e) => {
            out.append("\n\n**Error:**");
            push_fenced(out, e.as_str());
            assert(final(out)@ =~= old(out)@ + error_part(Some(*e)));
        },
        None => {
            assert(out@ =~= old(out)@ + Seq::<char>::empty());
        },
    }
}

fn push_option_lines(out: &mut String, opts: &Vec<ApprovalOption>)
    ensures
        final(out)@ == old(out)@ + option_lines(opts@),
{
    let n = opts.len();
    let mut i: usize = 0;
    assert(opts@.take(0) =~= Seq::<ApprovalOption>::empty());
    assert(out@ =~= old(out)@ + option_lines(opts@.take(0)));
    while i < n
        invariant
            n == opts@.len(),
            i <= n,
            out@ == old(out)@ + option_lines(opts@.take(i as int)),
        decreases n - i,
    {
        let ghost before = out@;
        if i > 0 {
            out.append("\n");
        }
        out.append("- `");
        out.append(opts[i].id.as_str());
        out.append("`: ");
        out.append(opts[i].label.as_str());
        proof {
            let t = opts@.take(i + 1);
            assert(t.drop_last() =~= opts@.take(i as int));
            assert(t.last() == opts@[i as int]);
            if i == 0 {
                assert(t.len() == 1);
                assert(out@ =~= old(out)@ + option_lines(t));
            } else {
                assert(out@ =~= old(out)@ + option_lines(t));
            }
        }
        i = i + 1;
    }
    assert(opts@.take(n as int) =~= opts@);
}

fn push_approval_part(out: &mut String, title: &str, a: &Option<ApprovalRequest>, task_id: &str)
    ensures
        final(out)@ == old(out)@ + approval_part(title@, *a, task_id@),
{
    match a {
        Some(a) => {
            out.append("\n\n**");
            out.append(title);
            out.append(":**\n");
            out.append(a.description.as_str());
            out.append("\n\nUse `/approve task_id:");
            out.append(task_id);
            out.append(" option:<option>` to respond.\n\nOptions:\n");
            push_option_lines(out, &a.options);
            assert(final(out)@ =~= old(out)@ + approval_part(title@, Some(*a), task_id@));
        },
        None => {
            assert(out@ =~= old(out)@ + Seq::<char>::empty());
        },
    }
}

fn push_submit_output(out: &mut String, output: &str, task_id: &str)
    ensures
        final(out)@ == old(out)@ + output_part(submit_shown(output@, task_id@), output@),
{
    let n = output.unicode_len();
    if n == 0 {
        assert(out@ =~= old(out)@ + Seq::<char>::empty());
        return;
    }
    out.append("\n\n**Output:**");
    if n <= SUBMIT_OUTPUT_CAP {
        push_fenced(out, output);
        assert(out@ =~= old(out)@ + output_part(submit_shown(output@, task_id@), output@));
    } else {
        let mut shown = String::from_str(output.substring_char(0, SUBMIT_OUTPUT_CAP));
        shown.append("...\n\n>>> (truncated - ");
        push_decimal(&mut shown, n);
        shown.append(" chars total) <<<\nUse `/status task_id:");
        shown.append(task_id);
        shown.append("` for full output");
        assert(output@.subrange(0, SUBMIT_OUTPUT_CAP as int) =~= output@.take(SUBMIT_OUTPUT_CAP as int));
        assert(shown@ =~= submit_shown(output@, task_id@));
        push_fenced(out, shown.as_str());
        assert(out@ =~= old(out)@ + output_part(submit_shown(output@, task_id@), output@));
    }
}

fn push_approval_output(out: &mut String, output: &str)
    ensures
        final(out)@ == old(out)@ + output_part(approval_shown(output@), output@),
{
    let n = output.unicode_len();
    if n == 0 {
        assert(out@ =~= old(out)@ + Seq::<char>::empty());
        return;
    }
    out.append("\n\n**Output:**");
    if n <= APPROVAL_OUTPUT_CAP {
        push_fenced(out, output);
        assert(out@ =~= old(out)@ + output_part(approval_shown(output@), output@));
    } else {
        let mut shown = String::from_str(output.substring_char(0, APPROVAL_OUTPUT_CAP));
        shown.append("...\n(truncated)");
        assert(output@.subrange(0, APPROVAL_OUTPUT_CAP as int) =~= output@.take(APPROVAL_OUTPUT_CAP as int));
        assert(shown@ =~= approval_shown(output@));
        push_fenced(out, shown.as_str());
        assert(out@ =~= old(out)@ + output_part(approval_shown(output@), output@));
    }
}

/// Renders the answer to a task submission.
pub fn render_submitted(t: &TaskResponse) -> (r: String)
    ensures
        r@ == submit_view(*t),
{
    let label = t.status.label();
    let mut s = String::from_str(t.status.glyph());
    s.append(" **Task ");
    s.append(label);
    s.append("**\n\n**Status:** ");
    s.append(label);
    s.append("\n**Task ID:** `");
    s.append(t.task_id.as_str());
    s.append("`\n**Session:** `");
    s.append(t.session_id.as_str());
    s.append("`");
    push_submit_output(&mut s, t.output.as_str(), t.task_id.as_str());
    push_error_part(&mut s, &t.error);
    push_approval_part(&mut s, "Approval Required", &t.approval_request, t.task_id.as_str());
    s
}

/// Renders the answer to an approval submission.
pub fn render_approval_result(t: &TaskResponse) -> (r: String)
    ensures
        r@ == approval_view(*t),
{
    let mut s = String::from_str(t.status.glyph());
    s.append(" **Approval Processed**\n\n**Status:** ");
    s.append(t.status.label());
    s.append("\n**Task ID:** `");
    s.append(t.task_id.as_str());
    s.append("`");
    push_approval_output(&mut s, t.output.as_str());
    push_error_part(&mut s, &t.error);
    push_approval_part(&mut s, "Additional Approval Required", &t.approval_request, t.task_id.as_str());
    s
}

fn push_chunk_label(out: &mut String, k: usize, n: usize)
    ensures
        final(out)@ == old(out)@ + chunk_label(k as nat, n as nat),
{
    out.append("**Output (");
    push_decimal(out, k);
    out.append("/");
    push_decimal(out, n);
    out.append("):**");
    assert(final(out)@ =~= old(out)@ + chunk_label(k as nat, n as nat));
}

/// Renders the status check: the primary message and its follow-ups.
pub fn render_status(t: &TaskResponse) -> (r: StatusMessages)
    ensures
        r.content@ == status_view(*t),
        views(r.follow_ups@) == status_follow_ups(t.output@),
{
    let mut s = String::from_str(t.status.glyph());
    s.append(" **Task Status**\n\n**Status:** ");
    s.append(t.status.label());
    s.append("\n**Task ID:** `");
    s.append(t.task_id.as_str());
    s.append("`\n**Session:** `");
    s.append(t.session_id.as_str());
    s.append("`\n**Created:** ");
    s.append(t.created_at.as_str());
    s.append("\n**Updated:** ");
    s.append(t.updated_at.as_str());
    let ghost head = s@;
    let output = t.output.as_str();
    let n = output.unicode_len();
    let mut follow_ups: Vec<String> = Vec::new();
    if n == 0 {
        assert(s@ =~= head + status_output_part(output@));
        assert(views(follow_ups@) =~= status_follow_ups(output@));
    } else if n <= STATUS_INLINE_LIMIT {
        s.append("\n\n**Output:**");
        push_fenced(&mut s, output);
        assert(s@ =~= head + status_output_part(output@));
        assert(views(follow_ups@) =~= status_follow_ups(output@));
    } else {
        let chunks = split_output(output, STATUS_INLINE_LIMIT, FOLLOW_UP_SIZE);
        let total = chunks.len();
        assert(views(chunks@)[0] == chunks@[0]@);
        s.append("\n\n");
        push_chunk_label(&mut s, 1, total);
        push_fenced(&mut s, chunks[0].as_str());
        assert(s@ =~= head + status_output_part(output@));
        let mut i: usize = 1;
        while i < total
            invariant
                total == chunks@.len(),
                views(chunks@) == status_chunks(output@),
                1 <= i <= total,
                views(follow_ups@) =~= Seq::new((i - 1) as nat, |j: int| follow_up_message(output@, j)),
            decreases total - i,
        {
            let mut m = String::new();
            push_chunk_label(&mut m, i + 1, total);
            push_fenced(&mut m, chunks[i].as_str());
            assert(views(chunks@)[i as int] == chunks@[i as int]@);
            assert(m@ =~= follow_up_message(output@, (i - 1) as int));
            let ghost before = follow_ups@;
            follow_ups.push(m);
            assert(views(follow_ups@) =~= views(before).push(follow_up_message(output@, (i - 1) as int)));
            i = i + 1;
        }
        assert(views(follow_ups@) =~= status_follow_ups(output@));
    }
    push_error_part(&mut s, &t.error);
    push_approval_part(&mut s, "Awaiting Approval", &t.approval_request, t.task_id.as_str());
    StatusMessages { content: s, follow_ups }
}

/// Output that fits the inline limit of the status view appears verbatim in
/// one fenced block of the primary message, and no follow-up is sent; the
/// same holds for the submission view up to its cap.
pub proof fn lemma_short_output_inline(t: TaskResponse)
    requires
        0 < t.output@.len() <= STATUS_INLINE_LIMIT,
    ensures
        status_follow_ups(t.output@).len() == 0,
        is_infix(fenced(t.output@), status_view(t)),
        is_infix(fenced(t.output@), submit_view(t)),
{
    let out = t.output@;
    let f = fenced(out);
    let pre = status_glyph(t.status) + " **Task Status**\n\n**Status:** "@ + status_label(t.status)
        + "\n**Task ID:** `"@ + t.task_id@ + "`\n**Session:** `"@ + t.session_id@
        + "`\n**Created:** "@ + t.created_at@ + "\n**Updated:** "@ + t.updated_at@
        + "\n\n**Output:**"@;
    let post = error_part(t.error) + approval_part("Awaiting Approval"@, t.approval_request, t.task_id@);
    assert(status_view(t) =~= pre + f + post);
    assert((pre + f + post).subrange(pre.len() as int, (pre.len() + f.len()) as int) =~= f);
    let pre2 = status_glyph(t.status) + " **Task "@ + status_label(t.status) + "**\n\n**Status:** "@
        + status_label(t.status) + "\n**Task ID:** `"@ + t.task_id@ + "`\n**Session:** `"@
        + t.session_id@ + "`"@ + "\n\n**Output:**"@;
    let post2 = error_part(t.error) + approval_part("Approval Required"@, t.approval_request, t.task_id@);
    assert(submit_view(t) =~= pre2 + f + post2);
    assert((pre2 + f + post2).subrange(pre2.len() as int, (pre2.len() + f.len()) as int) =~= f);
}

/// Output longer than the inline limit is sent as `1 + ceil((L - limit) / size)`
/// slices: the first `limit` characters in the primary message, then
/// follow-ups of `size` characters (the last one may be shorter), labelled in
/// order; joined, the slices give back the output exactly.
pub proof fn lemma_long_output_split(t: TaskResponse)
    requires
        t.output@.len() > STATUS_INLINE_LIMIT,
    ensures
        status_follow_ups(t.output@).len()
            == ceil_div((t.output@.len() - STATUS_INLINE_LIMIT) as nat, FOLLOW_UP_SIZE as nat),
        status_chunks(t.output@).len() == 1 + status_follow_ups(t.output@).len(),
        status_chunks(t.output@).flatten() == t.output@,
        status_chunks(t.output@)[0] == t.output@.take(STATUS_INLINE_LIMIT as int),
        is_infix(fenced(status_chunks(t.output@)[0]), status_view(t)),
        forall|k: int| 0 <= k < status_follow_ups(t.output@).len() ==>
            #[trigger] status_follow_ups(t.output@)[k]
                == chunk_label((k + 2) as nat, status_chunks(t.output@).len()) + fenced(status_chunks(t.output@)[k + 1]),
        forall|k: int| 1 <= k < status_chunks(t.output@).len() ==>
            0 < #[trigger] status_chunks(t.output@)[k].len() <= FOLLOW_UP_SIZE,
        forall|k: int| 1 <= k < status_chunks(t.output@).len() - 1 ==>
            #[trigger] status_chunks(t.output@)[k].len() == FOLLOW_UP_SIZE,
{
    let out = t.output@;
    lemma_chunks_shape(out, STATUS_INLINE_LIMIT as nat, FOLLOW_UP_SIZE as nat);
    lemma_chunks_join(out, STATUS_INLINE_LIMIT as nat, FOLLOW_UP_SIZE as nat);
    let c = status_chunks(out);
    let f = fenced(c[0]);
    let pre = status_glyph(t.status) + " **Task Status**\n\n**Status:** "@ + status_label(t.status)
        + "\n**Task ID:** `"@ + t.task_id@ + "`\n**Session:** `"@ + t.session_id@
        + "`\n**Created:** "@ + t.created_at@ + "\n**Updated:** "@ + t.updated_at@
        + "\n\n"@ + chunk_label(1, c.len());
    let post = error_part(t.error) + approval_part("Awaiting Approval"@, t.approval_request, t.task_id@);
    assert(status_view(t) =~= pre + f + post);
    assert((pre + f + post).subrange(pre.len() as int, (pre.len() + f.len()) as int) =~= f);
}

/// Whenever a snapshot carries an approval, every view ends with that
/// approval's options, in their given order, one `id: label` line each.
pub proof fn lemma_options_listed(t: TaskResponse)
    requires
        t.approval_request is Some,
    ensures
        ("\n\nOptions:\n"@ + option_lines(t.approval_request->0.options@)).is_suffix_of(status_view(t)),
        ("\n\nOptions:\n"@ + option_lines(t.approval_request->0.options@)).is_suffix_of(submit_view(t)),
        ("\n\nOptions:\n"@ + option_lines(t.approval_request->0.options@)).is_suffix_of(approval_view(t)),
{
    let a = t.approval_request->0;
    let tail = "\n\nOptions:\n"@ + option_lines(a.options@);
    reveal_strlit(" option:<option>` to respond.\n\nOptions:\n");
    reveal_strlit("\n\nOptions:\n");
    let k = " option:<option>` to respond."@;
    reveal_strlit(" option:<option>` to respond.");
    assert(" option:<option>` to respond.\n\nOptions:\n"@ =~= k + "\n\nOptions:\n"@);
    assert forall|title: Seq<char>| #![auto] tail.is_suffix_of(approval_block(title, a, t.task_id@)) by {
        let b = approval_block(title, a, t.task_id@);
        let head = "\n\n**"@ + title + ":**\n"@ + a.description@ + "\n\nUse `/approve task_id:"@ + t.task_id@ + k;
        assert(b =~= head + tail);
        assert(b.subrange(b.len() - tail.len(), b.len() as int) =~= tail);
    }
    let sv = status_view(t);
    let bs = approval_block("Awaiting Approval"@, a, t.task_id@);
    assert(sv.subrange(sv.len() - bs.len(), sv.len() as int) =~= bs);
    assert(sv.subrange(sv.len() - tail.len(), sv.len() as int) =~= bs.subrange(bs.len() - tail.len(), bs.len() as int));
    let uv = submit_view(t);
    let bu = approval_block("Approval Required"@, a, t.task_id@);
    assert(uv.subrange(uv.len() - bu.len(), uv.len() as int) =~= bu);
    assert(uv.subrange(uv.len() - tail.len(), uv.len() as int) =~= bu.subrange(bu.len() - tail.len(), bu.len() as int));
    let av = approval_view(t);
    let ba = approval_block("Additional Approval Required"@, a, t.task_id@);
    assert(av.subrange(av.len() - ba.len(), av.len() as int) =~= ba);
    assert(av.subrange(av.len() - tail.len(), av.len() as int) =~= ba.subrange(ba.len() - tail.len(), ba.len() as int));
}

/// When the snapshot that answers an approval carries an approval, it is
/// shown as a further one: the view ends with the "additional approval"
/// section built from that new approval alone.
pub proof fn lemma_chained_approval(t: TaskResponse)
    requires
        t.approval_request is Some,
    ensures
        approval_block("Additional Approval Required"@, t.approval_request->0, t.task_id@).is_suffix_of(approval_view(t)),
{
    let av = approval_view(t);
    let ba = approval_block("Additional Approval Required"@, t.approval_request->0, t.task_id@);
    assert(av.subrange(av.len() - ba.len(), av.len() as int) =~= ba);
}

} // verus!

//! The HTML fragments the pipeline answers with.
//!
//! A fragment is a partial page meant for embedding into the page region
//! the form sits in, never a full document. On success it names the
//! submitter, echoes the contact channel, and carries the instruction that
//! hides the originating form — an idempotent signal: repeating it re-hides
//! an already hidden form. On validation failure it lists every field that
//! was missing or malformed; the field identity is part of the contract,
//! the exact wording is not.

use vstd::prelude::*;

use crate::forms::ContactFormData;
use crate::forms::FieldError;
use crate::forms::FieldErrorKind;
use crate::forms::FieldName;
use crate::forms::JoinFormData;

verus! {

/// The label under which a field is reported to the submitter.
pub open spec fn field_label(f: FieldName) -> Seq<char> {
    match f {
        FieldName::FirstName => "first name"@,
        FieldName::LastName => "last name"@,
        FieldName::Email => "email"@,
        FieldName::Subject => "subject"@,
        FieldName::Message => "message"@,
        FieldName::Phone => "phone"@,
    }
}

/// The wording for each kind of field error.
pub open spec fn kind_label(k: FieldErrorKind) -> Seq<char> {
    match k {
        FieldErrorKind::Missing => "is required"@,
        FieldErrorKind::MalformedEmail => "must be an address of the form local@domain"@,
    }
}

/// One list entry of the error fragment.
pub open spec fn error_item_text(e: FieldError) -> Seq<char> {
    "<li>"@ + field_label(e.field) + " "@ + kind_label(e.kind) + "</li>"@
}

/// The list entries of the error fragment, in the order the errors were
/// found.
pub open spec fn error_items_text(errs: Seq<FieldError>) -> Seq<char>
    decreases errs.len(),
{
    if errs.len() == 0 {
        Seq::empty()
    } else {
        error_item_text(errs[0]) + error_items_text(errs.drop_first())
    }
}

/// The whole error fragment: an introduction and the list of field errors.
pub open spec fn error_fragment_text(errs: Seq<FieldError>) -> Seq<char> {
    "<div><p>Please correct the following:</p><ul>"@ + error_items_text(errs) + "</ul></div>"@
}

/// The contact flow's success fragment: it thanks the submitter by first
/// name, echoes the address the reply will go to, and hides the contact
/// form.
pub open spec fn contact_success_fragment_text(data: ContactFormData) -> Seq<char> {
    "<div><h2>Thank you for contacting us, "@ + data.first_name@
        + "!</h2><br><p>We have received your message and will get back to you at <strong>"@
        + data.email@
        + "</strong> as soon as possible.</p><br><p>Our team will review your message and respond accordingly.</p></div><script>document.getElementById('contact_form').style.display = 'none';</script>"@
}

/// The join flow's success fragment: it thanks the submitter by first name
/// and hides the join form.
pub open spec fn join_success_fragment_text(data: JoinFormData) -> Seq<char> {
    "<div><h2>Thank you for joining us, "@ + data.first_name@
        + "!</h2><br></div><script>document.getElementById('join_form').style.display = 'none';</script>"@
}

/// `needle` occurs contiguously somewhere in `hay`.
pub open spec fn text_contains(hay: Seq<char>, needle: Seq<char>) -> bool {
    exists|i: int|
        0 <= i && i + needle.len() <= hay.len() && #[trigger] hay.subrange(i, i + needle.len())
            == needle
}

/// Whatever stands around a piece of text, the whole contains it.
pub proof fn lemma_concat_contains_middle(a: Seq<char>, b: Seq<char>, c: Seq<char>)
    ensures
        text_contains(a + b + c, b),
{
    let hay = a + b + c;
    let i = a.len() as int;
    assert(hay.subrange(i, i + b.len()) =~= b);
}

/// Containment survives an enclosing concatenation.
proof fn lemma_contains_in_concat(a: Seq<char>, b: Seq<char>, c: Seq<char>, needle: Seq<char>)
    requires
        text_contains(b, needle),
    ensures
        text_contains(a + b + c, needle),
{
    let i = choose|i: int|
        0 <= i && i + needle.len() <= b.len() && #[trigger] b.subrange(i, i + needle.len())
            == needle;
    assert((a + b + c).subrange(a.len() + i, a.len() + i + needle.len()) =~= b.subrange(
        i,
        i + needle.len(),
    ));
}

/// Containment is transitive: what sits in a part sits in the whole.
proof fn lemma_contains_trans(a: Seq<char>, b: Seq<char>, c: Seq<char>)
    requires
        text_contains(a, b),
        text_contains(b, c),
    ensures
        text_contains(a, c),
{
    let i = choose|i: int|
        0 <= i && i + b.len() <= a.len() && #[trigger] a.subrange(i, i + b.len()) == b;
    let j = choose|j: int|
        0 <= j && j + c.len() <= b.len() && #[trigger] b.subrange(j, j + c.len()) == c;
    assert(a.subrange(i + j, i + j + c.len()) =~= b.subrange(j, j + c.len()));
}

/// The rendered list contains the entry of each error in it.
proof fn lemma_error_items_contain(errs: Seq<FieldError>, i: int)
    requires
        0 <= i < errs.len(),
    ensures
        text_contains(error_items_text(errs), error_item_text(errs[i])),
    decreases i,
{
    if i == 0 {
        assert(error_items_text(errs) =~= Seq::<char>::empty() + error_item_text(errs[0])
            + error_items_text(errs.drop_first()));
        lemma_concat_contains_middle(
            Seq::empty(),
            error_item_text(errs[0]),
            error_items_text(errs.drop_first()),
        );
    } else {
        lemma_error_items_contain(errs.drop_first(), i - 1);
        assert(errs.drop_first()[i - 1] == errs[i]);
        lemma_contains_in_concat(
            error_item_text(errs[0]),
            error_items_text(errs.drop_first()),
            Seq::empty(),
            error_item_text(errs[i]),
        );
        assert(error_item_text(errs[0]) + error_items_text(errs.drop_first())
            + Seq::<char>::empty() =~= error_items_text(errs));
    }
}

/// The error fragment names each errored field: for every error in the
/// list, the fragment contains that field's label.
pub proof fn lemma_error_fragment_names_fields(errs: Seq<FieldError>, i: int)
    requires
        0 <= i < errs.len(),
    ensures
        text_contains(error_fragment_text(errs), field_label(errs[i].field)),
{
    let intro = "<div><p>Please correct the following:</p><ul>"@;
    let close = "</ul></div>"@;
    lemma_concat_contains_middle(intro, error_items_text(errs), close);
    lemma_error_items_contain(errs, i);
    let e = errs[i];
    assert(error_item_text(e) =~= "<li>"@ + field_label(e.field) + (" "@ + kind_label(e.kind)
        + "</li>"@));
    lemma_concat_contains_middle(
        "<li>"@,
        field_label(e.field),
        " "@ + kind_label(e.kind) + "</li>"@,
    );
    lemma_contains_trans(error_fragment_text(errs), error_items_text(errs), error_item_text(e));
    lemma_contains_trans(error_fragment_text(errs), error_item_text(e), field_label(e.field));
}

/// Appending one more error extends the rendered list by its entry.
proof fn lemma_error_items_push(errs: Seq<FieldError>, e: FieldError)
    ensures
        error_items_text(errs.push(e)) =~= error_items_text(errs) + error_item_text(e),
    decreases errs.len(),
{
    if errs.len() == 0 {
        assert(errs.push(e)[0] == e);
        assert(errs.push(e).drop_first() =~= Seq::<FieldError>::empty());
        assert(error_items_text(Seq::<FieldError>::empty()) == Seq::<char>::empty());
        assert(error_items_text(errs.push(e)) == error_item_text(e) + Seq::<char>::empty());
    } else {
        assert(errs.push(e)[0] == errs[0]);
        assert(errs.push(e).drop_first() =~= errs.drop_first().push(e));
        assert(error_items_text(errs.push(e)) == error_item_text(errs[0]) + error_items_text(
            errs.drop_first().push(e),
        ));
        lemma_error_items_push(errs.drop_first(), e);
        assert(error_items_text(errs.push(e)) =~= (error_item_text(errs[0]) + error_items_text(
            errs.drop_first(),
        )) + error_item_text(e));
    }
}

/// The exec label of a field; see [`field_label`].
fn field_label_str(f: FieldName) -> (r: &'static str)
    ensures
        r@ == field_label(f),
{
    match f {
        FieldName::FirstName => "first name",
        FieldName::LastName => "last name",
        FieldName::Email => "email",
        FieldName::Subject => "subject",
        FieldName::Message => "message",
        FieldName::Phone => "phone",
    }
}

/// The exec wording of an error kind; see [`kind_label`].
fn kind_label_str(k: FieldErrorKind) -> (r: &'static str)
    ensures
        r@ == kind_label(k),
{
    match k {
        FieldErrorKind::Missing => "is required",
        FieldErrorKind::MalformedEmail => "must be an address of the form local@domain",
    }
}

/// Renders the fragment for a rejected submission; see
/// [`error_fragment_text`].
pub fn render_error_fragment(errs: &Vec<FieldError>) -> (r: String)
    ensures
        r@ == error_fragment_text(errs@),
{
    let mut s = String::from_str("<div><p>Please correct the following:</p><ul>");
    let mut i: usize = 0;
    while i < errs.len()
        invariant
            i <= errs.len(),
            s@ == "<div><p>Please correct the following:</p><ul>"@ + error_items_text(
                errs@.subrange(0, i as int),
            ),
        decreases errs.len() - i,
    {
        let e = errs[i];
        s.append("<li>");
        s.append(field_label_str(e.field));
        s.append(" ");
        s.append(kind_label_str(e.kind));
        s.append("</li>");
        proof {
            assert(errs@.subrange(0, i + 1 as int) =~= errs@.subrange(0, i as int).push(e));
            lemma_error_items_push(errs@.subrange(0, i as int), e);
            assert(s@ =~= "<div><p>Please correct the following:</p><ul>"@ + error_items_text(
                errs@.subrange(0, i + 1 as int),
            ));
        }
        i += 1;
    }
    s.append("</ul></div>");
    proof {
        assert(errs@.subrange(0, errs@.len() as int) =~= errs@);
        assert(s@ =~= error_fragment_text(errs@));
    }
    s
}

/// Renders the contact flow's success fragment; see
/// [`contact_success_fragment_text`].
pub fn render_contact_success(data: &ContactFormData) -> (r: String)
    ensures
        r@ == contact_success_fragment_text(*data),
{
    let mut s = String::from_str("<div><h2>Thank you for contacting us, ");
    s.append(data.first_name.as_str());
    s.append("!</h2><br><p>We have received your message and will get back to you at <strong>");
    s.append(data.email.as_str());
    s.append(
        "</strong> as soon as possible.</p><br><p>Our team will review your message and respond accordingly.</p></div><script>document.getElementById('contact_form').style.display = 'none';</script>",
    );
    proof {
        assert(s@ =~= contact_success_fragment_text(*data));
    }
    s
}

/// Renders the join flow's success fragment; see
/// [`join_success_fragment_text`].
pub fn render_join_success(data: &JoinFormData) -> (r: String)
    ensures
        r@ == join_success_fragment_text(*data),
{
    let mut s = String::from_str("<div><h2>Thank you for joining us, ");
    s.append(data.first_name.as_str());
    s.append(
        "!</h2><br></div><script>document.getElementById('join_form').style.display = 'none';</script>",
    );
    proof {
        assert(s@ =~= join_success_fragment_text(*data));
    }
    s
}

/// The contact flow's success fragment echoes the submitter's first name
/// and the address the reply will go to.
pub proof fn lemma_contact_fragment_echoes(data: ContactFormData)
    ensures
        text_contains(contact_success_fragment_text(data), data.first_name@),
        text_contains(contact_success_fragment_text(data), data.email@),
{
    let full = contact_success_fragment_text(data);
    let l1 = "<div><h2>Thank you for contacting us, "@;
    let l2 = "!</h2><br><p>We have received your message and will get back to you at <strong>"@;
    let l3 =
        "</strong> as soon as possible.</p><br><p>Our team will review your message and respond accordingly.</p></div><script>document.getElementById('contact_form').style.display = 'none';</script>"@;
    assert(full =~= l1 + data.first_name@ + (l2 + data.email@ + l3));
    lemma_concat_contains_middle(l1, data.first_name@, l2 + data.email@ + l3);
    assert(full =~= (l1 + data.first_name@ + l2) + data.email@ + l3);
    lemma_concat_contains_middle(l1 + data.first_name@ + l2, data.email@, l3);
}

/// The join flow's success fragment echoes the submitter's first name.
pub proof fn lemma_join_fragment_echoes(data: JoinFormData)
    ensures
        text_contains(join_success_fragment_text(data), data.first_name@),
{
    let full = join_success_fragment_text(data);
    let l1 = "<div><h2>Thank you for joining us, "@;
    let l2 =
        "!</h2><br></div><script>document.getElementById('join_form').style.display = 'none';</script>"@;
    assert(full =~= l1 + data.first_name@ + l2);
    lemma_concat_contains_middle(l1, data.first_name@, l2);
}

} // verus!

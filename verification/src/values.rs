//! The owned values handed to C callers: NUL-terminated strings, message
//! summaries, message lists and full e-mail details, with the functions that
//! fill and release them.
use vstd::prelude::*;
use vstd::utf8::{encode_utf8, decode_utf8};
use crate::last_error::{c_text, c_text_reads_back};

verus! {

/// An owned C string: `data` holds the text's bytes and a closing NUL, or is
/// absent (a null pointer); `len` counts the bytes before the NUL.
pub struct gm_string_t {
    pub data: Option<Vec<u8>>,
    pub len: usize,
}

impl gm_string_t {
    /// The bytes a C caller sees, the closing NUL included.
    pub open spec fn bytes(&self) -> Option<Seq<u8>> {
        match self.data {
            Some(v) => Some(v@),
            None => None,
        }
    }

    /// True when this value holds exactly `text`.
    pub open spec fn holds(&self, text: Seq<char>) -> bool {
        &&& self.bytes() == Some(c_text(text))
        &&& self.len == encode_utf8(text).len()
    }

    /// True when this value is the null string of length zero.
    pub open spec fn is_empty_handle(&self) -> bool {
        &&& self.data is None
        &&& self.len == 0
    }

    /// Whether the string is null.
    pub fn is_null(&self) -> (b: bool)
        ensures
            b == (self.data is None),
    {
        self.data.is_none()
    }
}

/// What a C caller reads from a string that holds `text`: `len` bytes that
/// decode to `text`, then a NUL.
pub proof fn gm_string_reads_back(g: gm_string_t, text: Seq<char>)
    requires
        g.holds(text),
    ensures
        g.bytes() matches Some(b) && b.len() == g.len + 1 && b[g.len as int] == 0u8
            && decode_utf8(b.take(g.len as int)) == text,
{
    c_text_reads_back(text);
    let b = c_text(text);
    assert(b.take(g.len as int) =~= b.drop_last());
}

impl Default for gm_string_t {
    fn default() -> (s: gm_string_t)
        ensures
            s.is_empty_handle(),
    {
        gm_string_t { data: None, len: 0 }
    }
}

/// Takes ownership of `value` as a C string.
pub fn into_gm_string(value: String) -> (s: gm_string_t)
    ensures
        s.holds(value@),
        s.data matches Some(v) && v@ == c_text(value@),
        s.len == encode_utf8(value@).len(),
{
    let bytes = value.as_str().as_bytes();
    let len = bytes.len();
    let mut data = vstd::slice::slice_to_vec(bytes);
    data.push(0u8);
    gm_string_t { data: Some(data), len }
}

/// Releases a C string; a null one is only given length zero.
pub fn free_gm_string(value: &mut gm_string_t)
    ensures
        final(value).is_empty_handle(),
{
    if value.data.is_none() {
        value.len = 0;
        return;
    }
    value.data = None;
    value.len = 0;
}

/// Releases the string behind a caller's pointer; a null pointer is ignored.
pub fn gm_string_free(value: Option<&mut gm_string_t>)
    ensures
        value matches Some(v) ==> final(v).is_empty_handle(),
{
    match value {
        Some(v) => free_gm_string(v),
        None => {},
    }
}

/// A message summary as the client reports it.
pub struct Message {
    pub mail_id: String,
    pub mail_from: String,
    pub mail_subject: String,
    pub mail_excerpt: String,
    pub mail_timestamp: String,
}

/// A message summary in C strings.
pub struct gm_message_t {
    pub mail_id: gm_string_t,
    pub mail_from: gm_string_t,
    pub mail_subject: gm_string_t,
    pub mail_excerpt: gm_string_t,
    pub mail_timestamp: gm_string_t,
}

/// True when `g` holds the fields of `m`.
pub open spec fn message_matches(g: gm_message_t, m: Message) -> bool {
    &&& g.mail_id.holds(m.mail_id@)
    &&& g.mail_from.holds(m.mail_from@)
    &&& g.mail_subject.holds(m.mail_subject@)
    &&& g.mail_excerpt.holds(m.mail_excerpt@)
    &&& g.mail_timestamp.holds(m.mail_timestamp@)
}

/// True when every string of `g` is released.
pub open spec fn message_released(g: gm_message_t) -> bool {
    &&& g.mail_id.is_empty_handle()
    &&& g.mail_from.is_empty_handle()
    &&& g.mail_subject.is_empty_handle()
    &&& g.mail_excerpt.is_empty_handle()
    &&& g.mail_timestamp.is_empty_handle()
}

/// Converts a message summary field by field.
pub fn into_gm_message(message: Message) -> (g: gm_message_t)
    ensures
        message_matches(g, message),
        g.mail_id.bytes() == Some(c_text(message.mail_id@)),
        g.mail_from.bytes() == Some(c_text(message.mail_from@)),
        g.mail_subject.bytes() == Some(c_text(message.mail_subject@)),
        g.mail_excerpt.bytes() == Some(c_text(message.mail_excerpt@)),
        g.mail_timestamp.bytes() == Some(c_text(message.mail_timestamp@)),
{
    gm_message_t {
        mail_id: into_gm_string(message.mail_id),
        mail_from: into_gm_string(message.mail_from),
        mail_subject: into_gm_string(message.mail_subject),
        mail_excerpt: into_gm_string(message.mail_excerpt),
        mail_timestamp: into_gm_string(message.mail_timestamp),
    }
}

/// Releases every string of a message summary.
pub fn free_gm_message(message: &mut gm_message_t)
    ensures
        message_released(*final(message)),
{
    free_gm_string(&mut message.mail_id);
    free_gm_string(&mut message.mail_from);
    free_gm_string(&mut message.mail_subject);
    free_gm_string(&mut message.mail_excerpt);
    free_gm_string(&mut message.mail_timestamp);
}

/// An owned array of message summaries: `items` is absent for a null
/// pointer; `len` counts the entries.
pub struct gm_message_list_t {
    pub items: Option<Vec<gm_message_t>>,
    pub len: usize,
}

impl gm_message_list_t {
    /// True when this list holds exactly the summaries of `messages`, in order.
    pub open spec fn holds(&self, messages: Seq<Message>) -> bool {
        &&& self.items matches Some(v) && v@.len() == messages.len()
            && (forall|i: int| 0 <= i < messages.len() ==> message_matches(#[trigger] v@[i], messages[i]))
        &&& self.len == messages.len()
    }

    /// True when this value is the null list of length zero.
    pub open spec fn is_empty_handle(&self) -> bool {
        &&& self.items is None
        &&& self.len == 0
    }
}

impl Default for gm_message_list_t {
    fn default() -> (l: gm_message_list_t)
        ensures
            l.is_empty_handle(),
    {
        gm_message_list_t { items: None, len: 0 }
    }
}

/// Converts an inbox listing, keeping its order.
pub fn into_gm_message_list(messages: Vec<Message>) -> (l: gm_message_list_t)
    ensures
        l.holds(messages@),
{
    let ghost all = messages@;
    let mut items: Vec<gm_message_t> = Vec::new();
    let mut rest = messages;
    let n = rest.len();
    let mut k: usize = 0;
    while k < n
        invariant
            n == all.len(),
            k <= n,
            rest@ == all.skip(k as int),
            items@.len() == k,
            forall|i: int| 0 <= i < k ==> message_matches(#[trigger] items@[i], all[i]),
        decreases n - k,
    {
        let m = rest.remove(0);
        assert(all.skip(k as int).drop_first() =~= all.skip(k + 1));
        let g = into_gm_message(m);
        items.push(g);
        k = k + 1;
    }
    let len = items.len();
    gm_message_list_t { items: Some(items), len }
}

/// Releases a message list behind a caller's pointer; a null pointer is
/// ignored. The summaries, and their strings, are dropped with the list.
pub fn gm_message_list_free(messages: Option<&mut gm_message_list_t>)
    ensures
        messages matches Some(l) ==> final(l).is_empty_handle(),
{
    match messages {
        Some(l) => {
            l.items = None;
            l.len = 0;
        },
        None => {},
    }
}

/// Full e-mail details as the client reports them.
pub struct EmailDetails {
    pub mail_id: String,
    pub mail_from: String,
    pub mail_subject: String,
    pub mail_body: String,
    pub mail_timestamp: String,
    pub attachment_count: Option<u32>,
}

/// Full e-mail details in C strings; `has_attachment_count` tells whether the
/// service reported a count at all.
pub struct gm_email_details_t {
    pub mail_id: gm_string_t,
    pub mail_from: gm_string_t,
    pub mail_subject: gm_string_t,
    pub mail_body: gm_string_t,
    pub mail_timestamp: gm_string_t,
    pub attachment_count: u32,
    pub has_attachment_count: bool,
}

/// True when `g` holds the fields of `d`; a missing count reads as zero.
pub open spec fn details_match(g: gm_email_details_t, d: EmailDetails) -> bool {
    &&& g.mail_id.holds(d.mail_id@)
    &&& g.mail_from.holds(d.mail_from@)
    &&& g.mail_subject.holds(d.mail_subject@)
    &&& g.mail_body.holds(d.mail_body@)
    &&& g.mail_timestamp.holds(d.mail_timestamp@)
    &&& g.has_attachment_count == (d.attachment_count is Some)
    &&& g.attachment_count == match d.attachment_count {
        Some(c) => c,
        None => 0u32,
    }
}

/// True when every field of `g` is released or zeroed.
pub open spec fn details_released(g: gm_email_details_t) -> bool {
    &&& g.mail_id.is_empty_handle()
    &&& g.mail_from.is_empty_handle()
    &&& g.mail_subject.is_empty_handle()
    &&& g.mail_body.is_empty_handle()
    &&& g.mail_timestamp.is_empty_handle()
    &&& g.attachment_count == 0
    &&& !g.has_attachment_count
}

/// Converts full e-mail details field by field.
pub fn into_gm_email_details(details: EmailDetails) -> (g: gm_email_details_t)
    ensures
        details_match(g, details),
        g.mail_id.bytes() == Some(c_text(details.mail_id@)),
        g.mail_from.bytes() == Some(c_text(details.mail_from@)),
        g.mail_subject.bytes() == Some(c_text(details.mail_subject@)),
        g.mail_body.bytes() == Some(c_text(details.mail_body@)),
        g.mail_timestamp.bytes() == Some(c_text(details.mail_timestamp@)),
        g.has_attachment_count <==> details.attachment_count is Some,
        details.attachment_count matches Some(c) ==> g.attachment_count == c,
        details.attachment_count is None ==> g.attachment_count == 0,
{
    let count = details.attachment_count;
    let (attachment_count, has_attachment_count) = match count {
        Some(c) => (c, true),
        None => (0u32, false),
    };
    gm_email_details_t {
        mail_id: into_gm_string(details.mail_id),
        mail_from: into_gm_string(details.mail_from),
        mail_subject: into_gm_string(details.mail_subject),
        mail_body: into_gm_string(details.mail_body),
        mail_timestamp: into_gm_string(details.mail_timestamp),
        attachment_count,
        has_attachment_count,
    }
}

/// Releases every string of the details and zeroes the count.
pub fn free_gm_email_details_fields(details: &mut gm_email_details_t)
    ensures
        details_released(*final(details)),
{
    free_gm_string(&mut details.mail_id);
    free_gm_string(&mut details.mail_from);
    free_gm_string(&mut details.mail_subject);
    free_gm_string(&mut details.mail_body);
    free_gm_string(&mut details.mail_timestamp);
    details.attachment_count = 0;
    details.has_attachment_count = false;
}

/// Releases the details behind a caller's pointer; a null pointer is ignored.
pub fn gm_email_details_free(details: Option<&mut gm_email_details_t>)
    ensures
        details matches Some(d) ==> details_released(*final(d)),
{
    match details {
        Some(d) => free_gm_email_details_fields(d),
        None => {},
    }
}

/// Each C summary field carries the same-named field of its message: the
/// bytes a C caller reads from the summary's id, sender, subject, excerpt and
/// timestamp are exactly that text of the message, NUL-terminated.
pub proof fn message_fields_carried(g: gm_message_t, m: Message)
    requires
        message_matches(g, m),
    ensures
        g.mail_id.bytes() == Some(c_text(m.mail_id@)),
        g.mail_from.bytes() == Some(c_text(m.mail_from@)),
        g.mail_subject.bytes() == Some(c_text(m.mail_subject@)),
        g.mail_excerpt.bytes() == Some(c_text(m.mail_excerpt@)),
        g.mail_timestamp.bytes() == Some(c_text(m.mail_timestamp@)),
{
}

/// In a message list that holds `messages`, entry `i` carries every field of
/// `messages[i]` under the same name.
pub proof fn listed_messages_carried(l: gm_message_list_t, messages: Seq<Message>, i: int)
    requires
        l.holds(messages),
        0 <= i < messages.len(),
    ensures
        l.len == messages.len(),
        l.items matches Some(v) && {
            &&& v@[i].mail_id.bytes() == Some(c_text(messages[i].mail_id@))
            &&& v@[i].mail_from.bytes() == Some(c_text(messages[i].mail_from@))
            &&& v@[i].mail_subject.bytes() == Some(c_text(messages[i].mail_subject@))
            &&& v@[i].mail_excerpt.bytes() == Some(c_text(messages[i].mail_excerpt@))
            &&& v@[i].mail_timestamp.bytes() == Some(c_text(messages[i].mail_timestamp@))
        },
{
    let v = l.items->0;
    message_fields_carried(v@[i], messages[i]);
}

/// Full details carry each field of the reported e-mail under the same name;
/// the count is the reported one, or 0 with the flag off when none was
/// reported.
pub proof fn details_fields_carried(g: gm_email_details_t, d: EmailDetails)
    requires
        details_match(g, d),
    ensures
        g.mail_id.bytes() == Some(c_text(d.mail_id@)),
        g.mail_from.bytes() == Some(c_text(d.mail_from@)),
        g.mail_subject.bytes() == Some(c_text(d.mail_subject@)),
        g.mail_body.bytes() == Some(c_text(d.mail_body@)),
        g.mail_timestamp.bytes() == Some(c_text(d.mail_timestamp@)),
        g.has_attachment_count <==> d.attachment_count is Some,
        d.attachment_count matches Some(c) ==> g.attachment_count == c,
        d.attachment_count is None ==> g.attachment_count == 0,
{
}

} // verus!

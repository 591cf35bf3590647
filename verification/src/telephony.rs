//! Phone calls and SMS: call notifications from the phone, the call
//! history, and the cached SMS conversations.
use crate::notification::{copy_opt, opt_view};
use crate::text::{owned, str_eq, string_eq_str};
use vstd::prelude::*;

verus! {

/// Packet type of a call event.
pub const PACKET_TYPE_TELEPHONY: &'static str = "cconnect.telephony";
/// Packet type of a request to mute the ringer.
pub const PACKET_TYPE_TELEPHONY_MUTE: &'static str = "cconnect.telephony.request_mute";
/// Packet type of SMS conversations.
pub const PACKET_TYPE_SMS_MESSAGES: &'static str = "cconnect.sms.messages";
/// Packet type of a request for the conversation list.
pub const PACKET_TYPE_SMS_REQUEST_CONVERSATIONS: &'static str = "cconnect.sms.request_conversations";
/// Packet type of a request for one conversation.
pub const PACKET_TYPE_SMS_REQUEST_CONVERSATION: &'static str = "cconnect.sms.request_conversation";
/// Packet type of a request for an attachment.
pub const PACKET_TYPE_SMS_REQUEST_ATTACHMENT: &'static str = "cconnect.sms.request_attachment";
/// Packet type of a request to send an SMS.
pub const PACKET_TYPE_SMS_REQUEST: &'static str = "cconnect.sms.request";

/// Call history entries kept by default.
pub const DEFAULT_MAX_HISTORY: usize = 100;

/// Kind of call event.
#[derive(Debug, Clone, Copy, PartialEq, Eq, Structural)]
pub enum CallEvent {
    /// The phone rings.
    Ringing,
    /// A call is in progress.
    Talking,
    /// A call was missed.
    MissedCall,
    /// An SMS arrived (superseded by the SMS packets).
    Sms,
}

/// The wire name of a call event.
pub open spec fn call_event_name(e: CallEvent) -> Seq<char> {
    match e {
        CallEvent::Ringing => "ringing"@,
        CallEvent::Talking => "talking"@,
        CallEvent::MissedCall => "missedCall"@,
        CallEvent::Sms => "sms"@,
    }
}

/// The call event named `s`, if any.
pub open spec fn call_event_of(s: Seq<char>) -> Option<CallEvent> {
    if s == "ringing"@ {
        Some(CallEvent::Ringing)
    } else if s == "talking"@ {
        Some(CallEvent::Talking)
    } else if s == "missedCall"@ {
        Some(CallEvent::MissedCall)
    } else if s == "sms"@ {
        Some(CallEvent::Sms)
    } else {
        None
    }
}

impl CallEvent {
    /// The wire name.
    pub fn as_str(&self) -> (r: &'static str)
        ensures
            r@ == call_event_name(*self),
    {
        match self {
            CallEvent::Ringing => "ringing",
            CallEvent::Talking => "talking",
            CallEvent::MissedCall => "missedCall",
            CallEvent::Sms => "sms",
        }
    }

    /// The call event with wire name `s`, if any.
    pub fn from_str(s: &str) -> (r: Option<CallEvent>)
        ensures
            r == call_event_of(s@),
    {
        if str_eq(s, "ringing") {
            Some(CallEvent::Ringing)
        } else if str_eq(s, "talking") {
            Some(CallEvent::Talking)
        } else if str_eq(s, "missedCall") {
            Some(CallEvent::MissedCall)
        } else if str_eq(s, "sms") {
            Some(CallEvent::Sms)
        } else {
            None
        }
    }
}

/// Reading back the name of a call event gives the event.
pub proof fn lemma_call_event_roundtrip(e: CallEvent)
    ensures
        call_event_of(call_event_name(e)) == Some(e),
{
    reveal_strlit("ringing");
    reveal_strlit("talking");
    reveal_strlit("missedCall");
    reveal_strlit("sms");
    assert("talking"@[0] != "ringing"@[0]);
    assert("missedCall"@.len() != "ringing"@.len() && "missedCall"@.len() != "talking"@.len());
    assert("sms"@.len() != "ringing"@.len() && "sms"@.len() != "talking"@.len() && "sms"@.len() != "missedCall"@.len());
}

/// A call notification.
#[derive(Debug)]
pub struct TelephonyEvent {
    /// Event name.
    pub event: String,
    /// Phone number.
    pub phone_number: Option<String>,
    /// Contact name from the address book.
    pub contact_name: Option<String>,
    /// SMS body (superseded).
    pub message_body: Option<String>,
}

/// A call notification as plain values.
pub struct TelephonyEventView {
    pub event: Seq<char>,
    pub phone_number: Option<Seq<char>>,
    pub contact_name: Option<Seq<char>>,
    pub message_body: Option<Seq<char>>,
}

impl View for TelephonyEvent {
    type V = TelephonyEventView;

    open spec fn view(&self) -> TelephonyEventView {
        TelephonyEventView {
            event: self.event@,
            phone_number: opt_view(self.phone_number),
            contact_name: opt_view(self.contact_name),
            message_body: opt_view(self.message_body),
        }
    }
}

impl TelephonyEvent {
    /// A copy of the event.
    pub fn duplicate(&self) -> (r: Self)
        ensures
            r@ == self@,
    {
        TelephonyEvent {
            event: owned(self.event.as_str()),
            phone_number: copy_opt(&self.phone_number),
            contact_name: copy_opt(&self.contact_name),
            message_body: copy_opt(&self.message_body),
        }
    }
}

/// A message of a conversation.
#[derive(Debug)]
pub struct SmsMessage {
    /// Message id.
    pub id: i64,
    /// Conversation thread id.
    pub thread_id: i64,
    /// Phone number or address.
    pub address: String,
    /// Message body.
    pub body: String,
    /// Milliseconds since the epoch.
    pub date: i64,
    /// 1 received, 2 sent.
    pub message_type: i32,
    /// 0 unread, 1 read.
    pub read: i32,
}

/// A message as plain values.
pub struct SmsMessageView {
    pub id: i64,
    pub thread_id: i64,
    pub address: Seq<char>,
    pub body: Seq<char>,
    pub date: i64,
    pub message_type: i32,
    pub read: i32,
}

impl View for SmsMessage {
    type V = SmsMessageView;

    open spec fn view(&self) -> SmsMessageView {
        SmsMessageView {
            id: self.id,
            thread_id: self.thread_id,
            address: self.address@,
            body: self.body@,
            date: self.date,
            message_type: self.message_type,
            read: self.read,
        }
    }
}

impl SmsMessage {
    /// A copy of the message.
    pub fn duplicate(&self) -> (r: Self)
        ensures
            r@ == self@,
    {
        SmsMessage {
            id: self.id,
            thread_id: self.thread_id,
            address: owned(self.address.as_str()),
            body: owned(self.body.as_str()),
            date: self.date,
            message_type: self.message_type,
            read: self.read,
        }
    }
}

/// A conversation thread.
#[derive(Debug)]
pub struct SmsConversation {
    /// Thread id.
    pub thread_id: i64,
    /// Its messages.
    pub messages: Vec<SmsMessage>,
}

/// A conversation as plain values.
pub struct SmsConversationView {
    pub thread_id: i64,
    pub messages: Seq<SmsMessageView>,
}

impl View for SmsConversation {
    type V = SmsConversationView;

    open spec fn view(&self) -> SmsConversationView {
        SmsConversationView {
            thread_id: self.thread_id,
            messages: Seq::new(self.messages@.len(), |i: int| self.messages@[i]@),
        }
    }
}

impl SmsConversation {
    /// A copy of the conversation.
    pub fn duplicate(&self) -> (r: Self)
        ensures
            r@ == self@,
    {
        let mut messages: Vec<SmsMessage> = Vec::new();
        let mut i: usize = 0;
        while i < self.messages.len()
            invariant
                i <= self.messages@.len(),
                messages@.len() == i,
                forall|j: int| 0 <= j < i ==> #[trigger] messages@[j]@ == self.messages@[j]@,
            decreases self.messages@.len() - i,
        {
            messages.push(self.messages[i].duplicate());
            i = i + 1;
        }
        let r = SmsConversation { thread_id: self.thread_id, messages };
        assert(r@.messages =~= self@.messages);
        r
    }
}

/// The body of an SMS messages packet.
#[derive(Debug)]
pub struct SmsMessages {
    /// The conversations.
    pub conversations: Vec<SmsConversation>,
}

/// A request for the messages of a conversation.
#[derive(Debug)]
pub struct ConversationRequest {
    /// Thread id.
    pub thread_id: i64,
    /// Earliest message timestamp, in milliseconds since the epoch.
    pub range_start_timestamp: Option<i64>,
    /// Most messages to return.
    pub number_to_request: Option<i32>,
}

/// A request for an attachment.
#[derive(Debug)]
pub struct AttachmentRequest {
    /// Attachment part id.
    pub part_id: i64,
    /// Unique file identifier.
    pub unique_identifier: String,
}

/// A request to send an SMS.
#[derive(Debug)]
pub struct SendSmsRequest {
    /// Recipient.
    pub phone_number: String,
    /// Message body.
    pub message_body: String,
}

/// Whether a message counts as unread: received and not read.
pub open spec fn is_unread(m: SmsMessageView) -> bool {
    m.read == 0 && m.message_type == 1
}

/// Number of unread messages in `ms`.
pub open spec fn unread_in(ms: Seq<SmsMessageView>) -> nat
    decreases ms.len(),
{
    if ms.len() == 0 {
        0
    } else {
        unread_in(ms.drop_last()) + if is_unread(ms.last()) { 1nat } else { 0nat }
    }
}

/// Number of unread messages over the conversations `cs`.
pub open spec fn unread_over(cs: Seq<SmsConversationView>) -> nat
    decreases cs.len(),
{
    if cs.len() == 0 {
        0
    } else {
        unread_over(cs.drop_last()) + unread_in(cs.last().messages)
    }
}

/// Number of missed calls in a history.
pub open spec fn missed_in(h: Seq<TelephonyEventView>) -> nat
    decreases h.len(),
{
    if h.len() == 0 {
        0
    } else {
        missed_in(h.drop_last()) + if h.last().event == "missedCall"@ { 1nat } else { 0nat }
    }
}

/// The history after `e` is recorded: newest first, at most `max` kept.
pub open spec fn history_after(h: Seq<TelephonyEventView>, e: TelephonyEventView, max: usize) -> Seq<TelephonyEventView> {
    let added = seq![e] + h;
    if added.len() > max {
        added.take(max as int)
    } else {
        added
    }
}

/// The index of the conversation with thread `t` in `cs`, if any.
pub open spec fn index_of_thread(cs: Seq<SmsConversationView>, t: i64) -> Option<int> {
    if exists|i: int| 0 <= i < cs.len() && cs[i].thread_id == t {
        Some(choose|i: int| 0 <= i < cs.len() && cs[i].thread_id == t)
    } else {
        None
    }
}

/// No thread id occurs twice.
pub open spec fn threads_unique(cs: Seq<SmsConversationView>) -> bool {
    forall|i: int, j: int| 0 <= i < cs.len() && 0 <= j < cs.len() && i != j ==> cs[i].thread_id != cs[j].thread_id
}

/// `cs` with `c` cached: it replaces the conversation of the same thread,
/// or is appended.
pub open spec fn cache_insert(cs: Seq<SmsConversationView>, c: SmsConversationView) -> Seq<SmsConversationView> {
    match index_of_thread(cs, c.thread_id) {
        Some(i) => cs.update(i, c),
        None => cs.push(c),
    }
}

/// `cs` with each of `new` cached in turn.
pub open spec fn cache_all(cs: Seq<SmsConversationView>, new: Seq<SmsConversationView>) -> Seq<SmsConversationView>
    decreases new.len(),
{
    if new.len() == 0 {
        cs
    } else {
        cache_insert(cache_all(cs, new.drop_last()), new.last())
    }
}

/// A signal the plugin raises for the desktop (as an internal packet).
#[derive(Debug)]
pub enum TelephonySignal {
    /// `cconnect.internal.telephony.ringing` with number and contact.
    Ringing { phone_number: Option<String>, contact_name: Option<String> },
    /// `cconnect.internal.telephony.talking` with number and contact.
    Talking { phone_number: Option<String>, contact_name: Option<String> },
    /// `cconnect.internal.telephony.missed_call` with number and contact.
    MissedCall { phone_number: Option<String>, contact_name: Option<String> },
    /// `cconnect.internal.sms.received` for an unread received message.
    SmsReceived { thread_id: i64, address: String, body: String, date: i64 },
    /// `cconnect.internal.sms.conversations_updated` with the number of
    /// conversations received.
    ConversationsUpdated { count: u32 },
}

/// A signal as plain values.
pub enum TelephonySignalView {
    Ringing(Option<Seq<char>>, Option<Seq<char>>),
    Talking(Option<Seq<char>>, Option<Seq<char>>),
    MissedCall(Option<Seq<char>>, Option<Seq<char>>),
    SmsReceived(i64, Seq<char>, Seq<char>, i64),
    ConversationsUpdated(u32),
}

impl View for TelephonySignal {
    type V = TelephonySignalView;

    open spec fn view(&self) -> TelephonySignalView {
        match self {
            TelephonySignal::Ringing { phone_number, contact_name } => TelephonySignalView::Ringing(
                opt_view(*phone_number),
                opt_view(*contact_name),
            ),
            TelephonySignal::Talking { phone_number, contact_name } => TelephonySignalView::Talking(
                opt_view(*phone_number),
                opt_view(*contact_name),
            ),
            TelephonySignal::MissedCall { phone_number, contact_name } => TelephonySignalView::MissedCall(
                opt_view(*phone_number),
                opt_view(*contact_name),
            ),
            TelephonySignal::SmsReceived { thread_id, address, body, date } => TelephonySignalView::SmsReceived(
                *thread_id,
                address@,
                body@,
                *date,
            ),
            TelephonySignal::ConversationsUpdated { count } => TelephonySignalView::ConversationsUpdated(*count),
        }
    }
}

/// The views of a list of signals.
pub open spec fn signals_view(v: Seq<TelephonySignal>) -> Seq<TelephonySignalView> {
    Seq::new(v.len(), |i: int| v[i]@)
}

/// The signals for the unread messages of `ms`, in order.
pub open spec fn unread_signals(ms: Seq<SmsMessageView>) -> Seq<TelephonySignalView>
    decreases ms.len(),
{
    if ms.len() == 0 {
        Seq::empty()
    } else {
        unread_signals(ms.drop_last()) + if is_unread(ms.last()) {
            seq![TelephonySignalView::SmsReceived(ms.last().thread_id, ms.last().address, ms.last().body, ms.last().date)]
        } else {
            Seq::<TelephonySignalView>::empty()
        }
    }
}

/// The signals for the unread messages of the conversations `cs`, in order.
pub open spec fn unread_signals_over(cs: Seq<SmsConversationView>) -> Seq<TelephonySignalView>
    decreases cs.len(),
{
    if cs.len() == 0 {
        Seq::empty()
    } else {
        unread_signals_over(cs.drop_last()) + unread_signals(cs.last().messages)
    }
}

/// The conversation views of `v`.
pub open spec fn conversation_views(v: Seq<SmsConversation>) -> Seq<SmsConversationView> {
    Seq::new(v.len(), |i: int| v[i]@)
}

/// The event views of `v`.
pub open spec fn event_views(v: Seq<TelephonyEvent>) -> Seq<TelephonyEventView> {
    Seq::new(v.len(), |i: int| v[i]@)
}

/// Telephony plugin state.
#[derive(Debug)]
pub struct TelephonyPlugin {
    device_id: Option<String>,
    has_packet_sender: bool,
    current_call: Option<TelephonyEvent>,
    call_history: Vec<TelephonyEvent>,
    conversations: Vec<SmsConversation>,
    max_history: usize,
}

impl TelephonyPlugin {
    /// The current call.
    pub closed spec fn current(&self) -> Option<TelephonyEventView> {
        match self.current_call {
            Some(e) => Some(e@),
            None => None,
        }
    }

    /// The call history, newest first.
    pub closed spec fn history(&self) -> Seq<TelephonyEventView> {
        event_views(self.call_history@)
    }

    /// The cached conversations.
    pub closed spec fn cached(&self) -> Seq<SmsConversationView> {
        conversation_views(self.conversations@)
    }

    /// How many history entries are kept.
    pub closed spec fn history_limit(&self) -> usize {
        self.max_history
    }

    /// Whether packets can be sent.
    pub closed spec fn can_send(&self) -> bool {
        self.has_packet_sender
    }

    /// The attached device.
    pub closed spec fn device(&self) -> Option<Seq<char>> {
        opt_view(self.device_id)
    }

    /// The history keeps its limit and no thread is cached twice.
    pub closed spec fn wf(&self) -> bool {
        &&& self.call_history@.len() <= self.max_history
        &&& threads_unique(self.cached())
    }

    /// A plugin with no call, no history, no conversation, keeping
    /// `DEFAULT_MAX_HISTORY` history entries.
    pub fn new() -> (r: Self)
        ensures
            r.wf(),
            r.current() is None,
            r.history().len() == 0,
            r.cached().len() == 0,
            r.history_limit() == DEFAULT_MAX_HISTORY,
            !r.can_send(),
            r.device() is None,
    {
        let r = TelephonyPlugin {
            device_id: None,
            has_packet_sender: false,
            current_call: None,
            call_history: Vec::new(),
            conversations: Vec::new(),
            max_history: DEFAULT_MAX_HISTORY,
        };
        assert(r.cached() =~= Seq::<SmsConversationView>::empty());
        r
    }

    /// A plugin like `new` keeping at most `max_history` history entries.
    pub fn with_max_history(max_history: usize) -> (r: Self)
        ensures
            r.wf(),
            r.current() is None,
            r.history().len() == 0,
            r.cached().len() == 0,
            r.history_limit() == max_history,
            !r.can_send(),
            r.device() is None,
    {
        let r = TelephonyPlugin {
            device_id: None,
            has_packet_sender: false,
            current_call: None,
            call_history: Vec::new(),
            conversations: Vec::new(),
            max_history,
        };
        assert(r.cached() =~= Seq::<SmsConversationView>::empty());
        r
    }

    /// The plugin name.
    pub fn name(&self) -> (r: &'static str)
        ensures
            r@ == "telephony"@,
    {
        "telephony"
    }

    /// Attaches the plugin to a device, with a packet sender.
    pub fn init(&mut self, device_id: &str)
        requires
            old(self).wf(),
        ensures
            final(self).wf(),
            final(self).device() == Some(device_id@),
            final(self).can_send(),
            final(self).current() == old(self).current(),
            final(self).history() == old(self).history(),
            final(self).cached() == old(self).cached(),
            final(self).history_limit() == old(self).history_limit(),
    {
        self.device_id = Some(owned(device_id));
        self.has_packet_sender = true;
    }

    /// A copy of the current call, if any.
    pub fn get_current_call(&self) -> (r: Option<TelephonyEvent>)
        ensures
            match r {
                Some(e) => self.current() == Some(e@),
                None => self.current() is None,
            },
    {
        match &self.current_call {
            Some(e) => Some(e.duplicate()),
            None => None,
        }
    }

    /// Whether the phone rings.
    pub fn is_ringing(&self) -> (r: bool)
        ensures
            r == (self.current() matches Some(e) && e.event == "ringing"@),
    {
        match &self.current_call {
            Some(e) => string_eq_str(&e.event, "ringing"),
            None => false,
        }
    }

    /// Whether a call is in progress.
    pub fn has_active_call(&self) -> (r: bool)
        ensures
            r == (self.current() matches Some(e) && e.event == "talking"@),
    {
        match &self.current_call {
            Some(e) => string_eq_str(&e.event, "talking"),
            None => false,
        }
    }

    /// Copies of the history entries, newest first.
    pub fn get_call_history(&self) -> (r: Vec<TelephonyEvent>)
        ensures
            event_views(r@) == self.history(),
    {
        let mut out: Vec<TelephonyEvent> = Vec::new();
        let mut i: usize = 0;
        while i < self.call_history.len()
            invariant
                i <= self.call_history@.len(),
                out@.len() == i,
                forall|j: int| 0 <= j < i ==> #[trigger] out@[j]@ == self.call_history@[j]@,
            decreases self.call_history@.len() - i,
        {
            out.push(self.call_history[i].duplicate());
            i = i + 1;
        }
        assert(event_views(out@) =~= self.history());
        out
    }

    /// Number of history entries.
    pub fn call_history_count(&self) -> (r: usize)
        ensures
            r == self.history().len(),
    {
        self.call_history.len()
    }

    /// Number of missed calls in the history.
    pub fn missed_call_count(&self) -> (r: usize)
        ensures
            r == missed_in(self.history()),
    {
        let mut count: usize = 0;
        let mut i: usize = 0;
        while i < self.call_history.len()
            invariant
                i <= self.call_history@.len(),
                count == missed_in(self.history().take(i as int)),
                count <= i,
            decreases self.call_history@.len() - i,
        {
            let ghost pre = self.history().take(i as int);
            assert(self.history().take(i + 1).drop_last() =~= pre);
            if string_eq_str(&self.call_history[i].event, "missedCall") {
                count = count + 1;
            }
            i = i + 1;
        }
        assert(self.history().take(i as int) =~= self.history());
        count
    }

    /// Copies of the cached conversations.
    pub fn get_conversations(&self) -> (r: Vec<SmsConversation>)
        ensures
            conversation_views(r@) == self.cached(),
    {
        let mut out: Vec<SmsConversation> = Vec::new();
        let mut i: usize = 0;
        while i < self.conversations.len()
            invariant
                i <= self.conversations@.len(),
                out@.len() == i,
                forall|j: int| 0 <= j < i ==> #[trigger] out@[j]@ == self.conversations@[j]@,
            decreases self.conversations@.len() - i,
        {
            out.push(self.conversations[i].duplicate());
            i = i + 1;
        }
        assert(conversation_views(out@) =~= self.cached());
        out
    }

    fn find_thread(&self, thread_id: i64) -> (r: Option<usize>)
        requires
            self.wf(),
        ensures
            match r {
                Some(i) => index_of_thread(self.cached(), thread_id) == Some(i as int) && i < self.cached().len(),
                None => index_of_thread(self.cached(), thread_id) is None,
            },
    {
        let mut i: usize = 0;
        while i < self.conversations.len()
            invariant
                self.wf(),
                i <= self.conversations@.len(),
                forall|j: int| 0 <= j < i ==> self.cached()[j].thread_id != thread_id,
            decreases self.conversations@.len() - i,
        {
            if self.conversations[i].thread_id == thread_id {
                assert(self.cached()[i as int].thread_id == thread_id);
                let ghost j = choose|j: int| 0 <= j < self.cached().len() && self.cached()[j].thread_id == thread_id;
                assert(j == i as int);
                return Some(i);
            }
            i = i + 1;
        }
        None
    }

    /// A copy of the conversation of thread `thread_id`, if cached.
    pub fn get_conversation(&self, thread_id: i64) -> (r: Option<SmsConversation>)
        requires
            self.wf(),
        ensures
            match index_of_thread(self.cached(), thread_id) {
                Some(i) => r matches Some(c) && c@ == self.cached()[i],
                None => r is None,
            },
    {
        match self.find_thread(thread_id) {
            Some(i) => Some(self.conversations[i].duplicate()),
            None => None,
        }
    }

    /// Number of cached conversations.
    pub fn conversation_count(&self) -> (r: usize)
        ensures
            r == self.cached().len(),
    {
        self.conversations.len()
    }

    /// Number of unread received messages over the cached conversations;
    /// the count saturates at `usize::MAX`.
    pub fn unread_sms_count(&self) -> (r: usize)
        ensures
            r == (if unread_over(self.cached()) > usize::MAX { usize::MAX as int } else { unread_over(self.cached()) as int }),
    {
        let mut count: usize = 0;
        let ghost mut exact: nat = 0;
        let mut i: usize = 0;
        while i < self.conversations.len()
            invariant
                i <= self.conversations@.len(),
                exact == unread_over(self.cached().take(i as int)),
                count == (if exact > usize::MAX { usize::MAX as int } else { exact as int }),
            decreases self.conversations@.len() - i,
        {
            let c = &self.conversations[i];
            let ghost msgs = c@.messages;
            let mut j: usize = 0;
            let ghost inner_start = exact;
            while j < c.messages.len()
                invariant
                    j <= c.messages@.len(),
                    msgs == c@.messages,
                    exact == inner_start + unread_in(msgs.take(j as int)),
                    count == (if exact > usize::MAX { usize::MAX as int } else { exact as int }),
                decreases c.messages@.len() - j,
            {
                let m = &c.messages[j];
                assert(msgs.take(j + 1).drop_last() =~= msgs.take(j as int));
                assert(msgs[j as int] == m@);
                if m.read == 0 && m.message_type == 1 {
                    proof {
                        exact = exact + 1;
                    }
                    count = count.saturating_add(1);
                }
                j = j + 1;
            }
            assert(msgs.take(j as int) =~= msgs);
            assert(self.cached().take(i + 1).drop_last() =~= self.cached().take(i as int));
            assert(self.cached().take(i + 1).last() == c@);
            i = i + 1;
        }
        assert(self.cached().take(i as int) =~= self.cached());
        count
    }

    /// Forgets the current call.
    pub fn clear_current_call(&mut self)
        requires
            old(self).wf(),
        ensures
            final(self).wf(),
            final(self).current() is None,
            final(self).history() == old(self).history(),
            final(self).cached() == old(self).cached(),
            final(self).history_limit() == old(self).history_limit(),
            final(self).device() == old(self).device(),
            final(self).can_send() == old(self).can_send(),
    {
        self.current_call = None;
    }

    fn add_to_history(&mut self, event: TelephonyEvent)
        requires
            old(self).wf(),
        ensures
            final(self).wf(),
            final(self).history() == history_after(old(self).history(), event@, old(self).history_limit()),
            final(self).current() == old(self).current(),
            final(self).cached() == old(self).cached(),
            final(self).history_limit() == old(self).history_limit(),
            final(self).device() == old(self).device(),
            final(self).can_send() == old(self).can_send(),
    {
        let ghost before = self.history();
        let ghost e = event@;
        self.call_history.insert(0, event);
        assert(self.history() =~= seq![e] + before);
        if self.call_history.len() > self.max_history {
            self.call_history.truncate(self.max_history);
            assert(self.history() =~= (seq![e] + before).take(self.max_history as int));
        }
    }

    fn cache_conversation(&mut self, conversation: SmsConversation)
        requires
            old(self).wf(),
        ensures
            final(self).wf(),
            final(self).cached() == cache_insert(old(self).cached(), conversation@),
            final(self).history() == old(self).history(),
            final(self).current() == old(self).current(),
            final(self).history_limit() == old(self).history_limit(),
            final(self).device() == old(self).device(),
            final(self).can_send() == old(self).can_send(),
    {
        let ghost before = self.cached();
        let ghost c = conversation@;
        match self.find_thread(conversation.thread_id) {
            Some(i) => {
                self.conversations.set(i, conversation);
                assert(self.cached() =~= before.update(i as int, c));
                assert forall|a: int, b: int| 0 <= a < self.cached().len() && 0 <= b < self.cached().len() && a != b
                    implies self.cached()[a].thread_id != self.cached()[b].thread_id by {
                    if a != i && b != i {
                        assert(self.cached()[a] == before[a] && self.cached()[b] == before[b]);
                    } else if a == i {
                        assert(self.cached()[b] == before[b]);
                    } else {
                        assert(self.cached()[a] == before[a]);
                    }
                }
            },
            None => {
                self.conversations.push(conversation);
                assert(self.cached() =~= before.push(c));
                assert forall|a: int, b: int| 0 <= a < self.cached().len() && 0 <= b < self.cached().len() && a != b
                    implies self.cached()[a].thread_id != self.cached()[b].thread_id by {
                    if a < before.len() && b < before.len() {
                        assert(self.cached()[a] == before[a] && self.cached()[b] == before[b]);
                    } else if a == before.len() {
                        assert(self.cached()[b] == before[b]);
                    } else {
                        assert(self.cached()[a] == before[a]);
                    }
                }
            },
        }
    }

    /// Applies a call event.  Ringing becomes the current call and enters
    /// the history; talking becomes the current call; a missed call clears
    /// the current call and enters the history; an unknown event name
    /// counts as ringing; an SMS event does nothing.  Each of the first
    /// three raises its signal when packets can be sent.
    pub fn handle_telephony_event(&mut self, event: TelephonyEvent) -> (r: Vec<TelephonySignal>)
        requires
            old(self).wf(),
        ensures
            final(self).wf(),
            final(self).cached() == old(self).cached(),
            final(self).history_limit() == old(self).history_limit(),
            final(self).device() == old(self).device(),
            final(self).can_send() == old(self).can_send(),
            ({
                let kind = match call_event_of(event@.event) {
                    Some(k) => k,
                    None => CallEvent::Ringing,
                };
                let who = (event@.phone_number, event@.contact_name);
                match kind {
                    CallEvent::Ringing => final(self).current() == Some(event@)
                        && final(self).history() == history_after(old(self).history(), event@, old(self).history_limit())
                        && signals_view(r@) == (if old(self).can_send() {
                            seq![TelephonySignalView::Ringing(who.0, who.1)]
                        } else {
                            Seq::empty()
                        }),
                    CallEvent::Talking => final(self).current() == Some(event@)
                        && final(self).history() == old(self).history()
                        && signals_view(r@) == (if old(self).can_send() {
                            seq![TelephonySignalView::Talking(who.0, who.1)]
                        } else {
                            Seq::empty()
                        }),
                    CallEvent::MissedCall => final(self).current() is None
                        && final(self).history() == history_after(old(self).history(), event@, old(self).history_limit())
                        && signals_view(r@) == (if old(self).can_send() {
                            seq![TelephonySignalView::MissedCall(who.0, who.1)]
                        } else {
                            Seq::empty()
                        }),
                    CallEvent::Sms => final(self).current() == old(self).current()
                        && final(self).history() == old(self).history()
                        && r@.len() == 0,
                }
            }),
    {
        let kind = match CallEvent::from_str(event.event.as_str()) {
            Some(k) => k,
            None => CallEvent::Ringing,
        };
        let mut signals: Vec<TelephonySignal> = Vec::new();
        match kind {
            CallEvent::Ringing => {
                if self.has_packet_sender {
                    signals.push(TelephonySignal::Ringing {
                        phone_number: copy_opt(&event.phone_number),
                        contact_name: copy_opt(&event.contact_name),
                    });
                }
                self.current_call = Some(event.duplicate());
                self.add_to_history(event);
            },
            CallEvent::Talking => {
                if self.has_packet_sender {
                    signals.push(TelephonySignal::Talking {
                        phone_number: copy_opt(&event.phone_number),
                        contact_name: copy_opt(&event.contact_name),
                    });
                }
                self.current_call = Some(event);
            },
            CallEvent::MissedCall => {
                if self.has_packet_sender {
                    signals.push(TelephonySignal::MissedCall {
                        phone_number: copy_opt(&event.phone_number),
                        contact_name: copy_opt(&event.contact_name),
                    });
                }
                self.current_call = None;
                self.add_to_history(event);
            },
            CallEvent::Sms => {},
        }
        proof {
            if signals@.len() == 1 {
                assert(signals_view(signals@) =~= seq![signals@[0]@]);
            } else {
                assert(signals_view(signals@) =~= Seq::<TelephonySignalView>::empty());
            }
        }
        signals
    }

    /// Applies an SMS messages packet: raises a signal for each unread
    /// received message (when packets can be sent), caches every
    /// conversation (replacing the one of the same thread), then raises the
    /// update signal with the number of conversations received.
    pub fn handle_sms_messages(&mut self, messages: SmsMessages) -> (r: Vec<TelephonySignal>)
        requires
            old(self).wf(),
        ensures
            final(self).wf(),
            final(self).cached() == cache_all(old(self).cached(), conversation_views(messages.conversations@)),
            final(self).current() == old(self).current(),
            final(self).history() == old(self).history(),
            final(self).history_limit() == old(self).history_limit(),
            final(self).device() == old(self).device(),
            final(self).can_send() == old(self).can_send(),
            signals_view(r@) == (if old(self).can_send() {
                unread_signals_over(conversation_views(messages.conversations@)).push(
                    TelephonySignalView::ConversationsUpdated((messages.conversations@.len() % 0x1_0000_0000) as u32),
                )
            } else {
                Seq::empty()
            }),
    {
        let ghost convs = conversation_views(messages.conversations@);
        let mut signals: Vec<TelephonySignal> = Vec::new();
        let count: u64 = messages.conversations.len() as u64;
        let can_send = self.has_packet_sender;
        let ghost start = self.cached();
        let mut conversations = messages.conversations;
        let mut i: usize = 0;
        while i < conversations.len()
            invariant
                i <= conversations@.len(),
                conversation_views(conversations@) == convs,
                can_send == self.can_send(),
                self.wf(),
                self.current() == old(self).current(),
                self.history() == old(self).history(),
                self.history_limit() == old(self).history_limit(),
                self.device() == old(self).device(),
                self.can_send() == old(self).can_send(),
                self.cached() == cache_all(start, convs.take(i as int)),
                signals_view(signals@) == (if can_send { unread_signals_over(convs.take(i as int)) } else { Seq::empty() }),
            decreases conversations@.len() - i,
        {
            let ghost before_signals = signals_view(signals@);
            let c = conversations[i].duplicate();
            let ghost cv = c@;
            assert(cv == convs[i as int]);
            if can_send {
                let mut j: usize = 0;
                while j < c.messages.len()
                    invariant
                        j <= c.messages@.len(),
                        cv == c@,
                        signals_view(signals@) == before_signals + unread_signals(cv.messages.take(j as int)),
                    decreases c.messages@.len() - j,
                {
                    let m = &c.messages[j];
                    let ghost pre = signals_view(signals@);
                    assert(cv.messages.take(j + 1).drop_last() =~= cv.messages.take(j as int));
                    assert(cv.messages[j as int] == m@);
                    if m.read == 0 && m.message_type == 1 {
                        signals.push(TelephonySignal::SmsReceived {
                            thread_id: m.thread_id,
                            address: owned(m.address.as_str()),
                            body: owned(m.body.as_str()),
                            date: m.date,
                        });
                        assert(signals_view(signals@) =~= pre.push(signals@.last()@));
                    } else {
                        assert(signals_view(signals@) =~= pre);
                    }
                    assert(signals_view(signals@) =~= before_signals + unread_signals(cv.messages.take(j + 1)));
                    j = j + 1;
                }
                assert(cv.messages.take(j as int) =~= cv.messages);
            }
            assert(convs.take(i + 1).drop_last() =~= convs.take(i as int));
            assert(convs.take(i + 1).last() == cv);
            self.cache_conversation(c);
            i = i + 1;
        }
        assert(convs.take(i as int) =~= convs);
        if can_send {
            let ghost pre = signals_view(signals@);
            signals.push(TelephonySignal::ConversationsUpdated { count: (count % 0x1_0000_0000) as u32 });
            assert(signals_view(signals@) =~= pre.push(signals@.last()@));
        }
        signals
    }
}

impl Default for TelephonyPlugin {
    fn default() -> (r: Self)
        ensures
            r.wf(),
            r.current() is None,
            r.history().len() == 0,
            r.cached().len() == 0,
            r.history_limit() == DEFAULT_MAX_HISTORY,
    {
        TelephonyPlugin::new()
    }
}

/// After a call event enters the history, it is the newest entry and the
/// history keeps its limit.
pub proof fn lemma_history_newest_first(h: Seq<TelephonyEventView>, e: TelephonyEventView, max: usize)
    requires
        h.len() <= max,
        max > 0,
    ensures
        history_after(h, e, max).len() <= max,
        history_after(h, e, max)[0] == e,
        history_after(h, e, max).len() == (if h.len() < max { h.len() + 1 } else { max as nat }),
{
}

/// Packet types the telephony plugin accepts.
pub open spec fn telephony_incoming_capabilities() -> Seq<Seq<char>> {
    seq!["cconnect.telephony"@, "cconnect.sms.messages"@, "kdeconnect.telephony"@, "kdeconnect.sms.messages"@]
}

/// Packet types the telephony plugin sends.
pub open spec fn telephony_outgoing_capabilities() -> Seq<Seq<char>> {
    seq![
        "cconnect.telephony.request_mute"@,
        "cconnect.sms.request_conversations"@,
        "cconnect.sms.request_conversation"@,
        "cconnect.sms.request_attachment"@,
        "cconnect.sms.request"@,
    ]
}

/// The views of a list of strings.
pub open spec fn strings_view(v: Seq<String>) -> Seq<Seq<char>> {
    Seq::new(v.len(), |i: int| v[i]@)
}

fn incoming_list() -> (r: Vec<String>)
    ensures
        strings_view(r@) == telephony_incoming_capabilities(),
{
    let mut v: Vec<String> = Vec::new();
    v.push(owned(PACKET_TYPE_TELEPHONY));
    v.push(owned(PACKET_TYPE_SMS_MESSAGES));
    v.push(owned("kdeconnect.telephony"));
    v.push(owned("kdeconnect.sms.messages"));
    assert(strings_view(v@) =~= telephony_incoming_capabilities());
    v
}

fn outgoing_list() -> (r: Vec<String>)
    ensures
        strings_view(r@) == telephony_outgoing_capabilities(),
{
    let mut v: Vec<String> = Vec::new();
    v.push(owned(PACKET_TYPE_TELEPHONY_MUTE));
    v.push(owned(PACKET_TYPE_SMS_REQUEST_CONVERSATIONS));
    v.push(owned(PACKET_TYPE_SMS_REQUEST_CONVERSATION));
    v.push(owned(PACKET_TYPE_SMS_REQUEST_ATTACHMENT));
    v.push(owned(PACKET_TYPE_SMS_REQUEST));
    assert(strings_view(v@) =~= telephony_outgoing_capabilities());
    v
}

impl TelephonyPlugin {
    /// Packet types the plugin accepts.
    pub fn incoming_capabilities(&self) -> (r: Vec<String>)
        ensures
            strings_view(r@) == telephony_incoming_capabilities(),
    {
        incoming_list()
    }

    /// Packet types the plugin sends.
    pub fn outgoing_capabilities(&self) -> (r: Vec<String>)
        ensures
            strings_view(r@) == telephony_outgoing_capabilities(),
    {
        outgoing_list()
    }
}

/// Kinds of packet the telephony plugin tells apart.
#[derive(Debug, Clone, Copy, PartialEq, Eq, Structural)]
pub enum TelephonyPacketKind {
    /// A call event.
    CallEvent,
    /// SMS conversations.
    SmsMessages,
    /// Anything else.
    Other,
}

/// The kind of a packet type.
pub fn telephony_packet_kind(packet_type: &str) -> (r: TelephonyPacketKind)
    ensures
        r == (if packet_type@ == PACKET_TYPE_TELEPHONY@ || packet_type@ == "kdeconnect.telephony"@ {
            TelephonyPacketKind::CallEvent
        } else if packet_type@ == PACKET_TYPE_SMS_MESSAGES@ || packet_type@ == "kdeconnect.sms.messages"@ {
            TelephonyPacketKind::SmsMessages
        } else {
            TelephonyPacketKind::Other
        }),
{
    if str_eq(packet_type, PACKET_TYPE_TELEPHONY) || str_eq(packet_type, "kdeconnect.telephony") {
        TelephonyPacketKind::CallEvent
    } else if str_eq(packet_type, PACKET_TYPE_SMS_MESSAGES) || str_eq(packet_type, "kdeconnect.sms.messages") {
        TelephonyPacketKind::SmsMessages
    } else {
        TelephonyPacketKind::Other
    }
}

/// Creates telephony plugins.
#[derive(Debug, Clone, Copy)]
pub struct TelephonyPluginFactory;

impl TelephonyPluginFactory {
    /// The plugin name.
    pub fn name(&self) -> (r: &'static str)
        ensures
            r@ == "telephony"@,
    {
        "telephony"
    }

    /// Packet types the plugin accepts.
    pub fn incoming_capabilities(&self) -> (r: Vec<String>)
        ensures
            strings_view(r@) == telephony_incoming_capabilities(),
    {
        incoming_list()
    }

    /// Packet types the plugin sends.
    pub fn outgoing_capabilities(&self) -> (r: Vec<String>)
        ensures
            strings_view(r@) == telephony_outgoing_capabilities(),
    {
        outgoing_list()
    }

    /// A new plugin.
    pub fn create(&self) -> (r: TelephonyPlugin)
        ensures
            r.wf(),
            r.current() is None,
            r.history().len() == 0,
            r.cached().len() == 0,
    {
        TelephonyPlugin::new()
    }
}

} // verus!

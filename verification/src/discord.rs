//! The core handle: construction, pump, teardown, and the per-manager
//! operations that register callbacks or drain event queues.
//!
//! The native runtime is driven through a C ABI that this crate cannot call
//! itself; an unverified driver owns the raw handle and performs the calls.
//! Everything the binding decides around those calls is here, verified:
//! which creation parameters are handed to the versioned entry point, how
//! each native result code turns into the caller's result, when a callback
//! context stays pending and when it is reclaimed, and what each event
//! reader drains. The driver hands every native outcome in as a plain
//! value (`create_code`, `accept_code`, ...) and routes every native event
//! notification to a `push_*_event` method during the pump.
//!
//! Teardown consumes the handle, so issuing an operation after teardown or
//! tearing down twice is structurally impossible rather than checked at run
//! time.

use vstd::prelude::*;
use vstd::string::StringSliceAdditionalSpecFns;

use std::collections::HashMap;

use crate::callback::{deliver_outcome, CallbackRegistry};
use crate::channel::{
    channel_history, channel_instance, channel_read, channel_register_reader,
    channel_with_capacity, channel_write, reader_cursor, reader_instance,
};
use crate::error::{error_from_code, spec_error, spec_result, to_result, DeveloperViolation, Error};
use crate::event::{Action, Event, EventCategory};
use crate::image::{Image, ImageHandle};

verus! {

broadcast use vstd::std_specs::hash::group_hash_axioms;

/// The ABI version handed to the native creation entry point; creation
/// fails hard when it does not match the native runtime's expectation.
pub const DISCORD_VERSION: i32 = 2;

/// The initial ring size of each event queue. An event occupies its slot
/// only until every live reader has drained it; while a live reader lags,
/// the queue grows past this size rather than drop unread events, and
/// shrinks its claim again once the reader drains or is dropped.
pub const EVENT_QUEUE_CAPACITY: usize = 64;

/// The ABI version of every per-manager function table this binding speaks.
pub const MANAGER_VERSION: i32 = 1;

/// The configuration flag chosen at construction; immutable afterwards.
#[derive(Clone, Copy, PartialEq, Eq, Structural, Debug)]
pub enum CreateFlags {
    /// Requires the host application of the native runtime to be running.
    Default,
    /// Does not require the host application to be running.
    NoRequireDiscord,
}

impl Default for CreateFlags {
    fn default() -> (r: Self)
        ensures
            r == CreateFlags::Default,
    {
        CreateFlags::Default
    }
}

impl CreateFlags {
    /// The numeric value the native ABI uses for this flag.
    pub open spec fn spec_to_sys(self) -> u64 {
        match self {
            CreateFlags::Default => 0,
            CreateFlags::NoRequireDiscord => 1,
        }
    }

    /// Returns the numeric value the native ABI uses for this flag.
    pub fn to_sys(&self) -> (r: u64)
        ensures
            r == self.spec_to_sys(),
    {
        match self {
            CreateFlags::Default => 0,
            CreateFlags::NoRequireDiscord => 1,
        }
    }
}

/// The fixed-layout record handed by address to the native creation entry
/// point, as plain values: the driver adds the pointers (event-table
/// addresses and the stable context address of the handle) that only it
/// can produce.
#[derive(Clone, Copy, PartialEq, Eq, Structural, Debug)]
pub struct CreateParams {
    pub client_id: i64,
    pub flags: u64,
    pub version: i32,
    pub application_version: i32,
    pub user_version: i32,
    pub image_version: i32,
    pub activity_version: i32,
    pub relationship_version: i32,
    pub lobby_version: i32,
    pub network_version: i32,
    pub overlay_version: i32,
    pub storage_version: i32,
    pub store_version: i32,
    pub voice_version: i32,
    pub achievement_version: i32,
}

/// Populates the creation parameters for a client identifier and
/// configuration: the caller's values, and the fixed version constants that
/// must match the native runtime's expectations exactly.
pub fn create_params(client_id: i64, flags: &CreateFlags) -> (p: CreateParams)
    ensures
        p.client_id == client_id,
        p.flags == flags.spec_to_sys(),
        p.version == DISCORD_VERSION,
        p.application_version == MANAGER_VERSION,
        p.user_version == MANAGER_VERSION,
        p.image_version == MANAGER_VERSION,
        p.activity_version == MANAGER_VERSION,
        p.relationship_version == MANAGER_VERSION,
        p.lobby_version == MANAGER_VERSION,
        p.network_version == MANAGER_VERSION,
        p.overlay_version == MANAGER_VERSION,
        p.storage_version == MANAGER_VERSION,
        p.store_version == MANAGER_VERSION,
        p.voice_version == MANAGER_VERSION,
        p.achievement_version == MANAGER_VERSION,
{
    CreateParams {
        client_id,
        flags: flags.to_sys(),
        version: DISCORD_VERSION,
        application_version: MANAGER_VERSION,
        user_version: MANAGER_VERSION,
        image_version: MANAGER_VERSION,
        activity_version: MANAGER_VERSION,
        relationship_version: MANAGER_VERSION,
        lobby_version: MANAGER_VERSION,
        network_version: MANAGER_VERSION,
        overlay_version: MANAGER_VERSION,
        storage_version: MANAGER_VERSION,
        store_version: MANAGER_VERSION,
        voice_version: MANAGER_VERSION,
        achievement_version: MANAGER_VERSION,
    }
}

/// Whether a string holds a zero byte and therefore cannot cross the
/// native boundary as a C string.
pub open spec fn has_interior_nul(s: &str) -> bool {
    exists|i: int| 0 <= i < s.spec_bytes().len() && s.spec_bytes()[i] == 0
}

/// The verified state of the core handle. The driver owns the raw native
/// pointer; this value owns everything the binding itself decides with:
/// the configuration, the registry of pending callback contexts, and the
/// per-category event queues.
pub struct Discord {
    client_id: i64,
    flags: CreateFlags,
    callbacks: CallbackRegistry,
    fetches: HashMap<u64, ImageHandle>,
    overlay_events: shrev::EventChannel<Event>,
    lobby_events: shrev::EventChannel<Event>,
}

impl Discord {
    /// The registry is well formed and each queue holds only events of its
    /// own category.
    pub closed spec fn wf(self) -> bool {
        &&& self.callbacks.wf()
        &&& forall|i: int| 0 <= i < channel_history(self.overlay_events).len()
            ==> channel_history(self.overlay_events)[i].spec_category() == EventCategory::Overlay
        &&& forall|i: int| 0 <= i < channel_history(self.lobby_events).len()
            ==> channel_history(self.lobby_events)[i].spec_category() == EventCategory::Lobby
    }

    /// The client identifier this handle was constructed with.
    pub closed spec fn spec_client_id(self) -> i64 {
        self.client_id
    }

    /// The configuration this handle was constructed with.
    pub closed spec fn spec_flags(self) -> CreateFlags {
        self.flags
    }

    /// The tokens of the callback contexts the native runtime currently
    /// owns.
    pub closed spec fn pending_tokens(self) -> Set<u64> {
        self.callbacks.pending_tokens()
    }

    /// The image handle each pending fetch token was registered with; on
    /// delivery the fetch closure receives exactly this handle back.
    pub closed spec fn fetch_handles(self) -> Map<u64, ImageHandle> {
        self.fetches@
    }

    /// How many callback tokens this handle has ever issued; tokens are
    /// never reused.
    pub closed spec fn tokens_issued(self) -> int {
        self.callbacks.tokens_issued()
    }

    /// Whether a fresh callback token can still be issued. The supply is
    /// finite, though exhausting it would take 2^64 - 1 registrations.
    pub open spec fn can_register(self) -> bool {
        self.tokens_issued() < u64::MAX
    }

    /// The whole history of overlay events enqueued on this handle.
    pub closed spec fn overlay_history(self) -> Seq<Event> {
        channel_history(self.overlay_events)
    }

    /// The identity of the overlay queue, tying its readers to it.
    pub closed spec fn overlay_instance(self) -> int {
        channel_instance(self.overlay_events)
    }

    /// The whole history of lobby events enqueued on this handle.
    pub closed spec fn lobby_history(self) -> Seq<Event> {
        channel_history(self.lobby_events)
    }

    /// The identity of the lobby queue, tying its readers to it.
    pub closed spec fn lobby_instance(self) -> int {
        channel_instance(self.lobby_events)
    }

    /// Everything a handle operation leaves untouched unless its contract
    /// says otherwise: configuration and queue identities.
    pub open spec fn same_identity(pre: Discord, post: Discord) -> bool {
        &&& post.spec_client_id() == pre.spec_client_id()
        &&& post.spec_flags() == pre.spec_flags()
        &&& post.overlay_instance() == pre.overlay_instance()
        &&& post.lobby_instance() == pre.lobby_instance()
    }

    /// Constructs the handle state for a creation attempt with the default
    /// configuration.
    pub fn new(client_id: i64, create_code: i32, log_hook_code: i32) -> (r: Result<Discord, Error>)
        ensures
            create_code != 0 ==> r == Result::<Discord, Error>::Err(spec_error(create_code)),
            create_code == 0 && log_hook_code != 0 ==> r == Result::<Discord, Error>::Err(
                spec_error(log_hook_code),
            ),
            create_code == 0 && log_hook_code == 0 ==> (r matches Ok(d) && {
                &&& d.wf()
                &&& d.tokens_issued() == 0
                &&& d.spec_client_id() == client_id
                &&& d.spec_flags() == CreateFlags::Default
                &&& d.pending_tokens() == Set::<u64>::empty()
                &&& d.fetch_handles() == Map::<u64, ImageHandle>::empty()
                &&& d.overlay_history() == Seq::<Event>::empty()
                &&& d.lobby_history() == Seq::<Event>::empty()
            }),
    {
        Discord::with_create_flags(client_id, &CreateFlags::default(), create_code, log_hook_code)
    }

    /// Constructs the handle state. The driver allocates the handle's
    /// stable storage, populates [`create_params`], invokes the versioned
    /// native creation entry point, then installs the log hook; it hands
    /// both native result codes in here. A nonzero creation code is
    /// returned translated, and no handle exists — there is nothing to tear
    /// down. A nonzero log-hook code likewise fails construction; the
    /// driver tears the half-made native handle down itself. On success
    /// the handle starts with no pending callback and empty queues.
    pub fn with_create_flags(
        client_id: i64,
        flags: &CreateFlags,
        create_code: i32,
        log_hook_code: i32,
    ) -> (r: Result<Discord, Error>)
        ensures
            create_code != 0 ==> r == Result::<Discord, Error>::Err(spec_error(create_code)),
            create_code == 0 && log_hook_code != 0 ==> r == Result::<Discord, Error>::Err(
                spec_error(log_hook_code),
            ),
            create_code == 0 && log_hook_code == 0 ==> (r matches Ok(d) && {
                &&& d.wf()
                &&& d.tokens_issued() == 0
                &&& d.spec_client_id() == client_id
                &&& d.spec_flags() == *flags
                &&& d.pending_tokens() == Set::<u64>::empty()
                &&& d.fetch_handles() == Map::<u64, ImageHandle>::empty()
                &&& d.overlay_history() == Seq::<Event>::empty()
                &&& d.lobby_history() == Seq::<Event>::empty()
            }),
    {
        if create_code != 0 {
            return Err(error_from_code(create_code));
        }
        if log_hook_code != 0 {
            return Err(error_from_code(log_hook_code));
        }
        Ok(
            Discord {
                client_id,
                flags: *flags,
                callbacks: CallbackRegistry::new(),
                fetches: HashMap::new(),
                overlay_events: channel_with_capacity(EVENT_QUEUE_CAPACITY),
                lobby_events: channel_with_capacity(EVENT_QUEUE_CAPACITY),
            },
        )
    }

    /// Returns whether a fresh callback token can still be issued.
    pub fn may_register(&self) -> (r: bool)
        ensures
            r == self.can_register(),
    {
        self.callbacks.may_register()
    }

    /// Returns the client identifier this handle was constructed with.
    pub fn client_id(&self) -> (r: i64)
        ensures
            r == self.spec_client_id(),
    {
        self.client_id
    }

    /// Returns the configuration this handle was constructed with.
    pub fn create_flags(&self) -> (r: CreateFlags)
        ensures
            r == self.spec_flags(),
    {
        self.flags
    }

    /// The pump. The driver invokes the native run-callbacks operation —
    /// the single point where the native runtime delivers trampolines,
    /// which the driver routes to [`Self::deliver_callback`] and the
    /// `push_*_event` methods — and hands the operation's result code in
    /// here to be translated. The handle state itself is untouched.
    pub fn run_callbacks(&mut self, code: i32) -> (r: Result<(), Error>)
        ensures
            *final(self) == *old(self),
            r == spec_result(code),
    {
        to_result(code)
    }

    /// Teardown. Consumes the handle — after this no operation can be
    /// issued and a second teardown cannot happen. The driver invokes the
    /// native destroy operation and hands its code in; a failure is
    /// returned for the logging path only, since no caller remains to
    /// receive it.
    pub fn destroy(self, destroy_code: i32) -> (r: Option<Error>)
        ensures
            r is Some <==> destroy_code != 0,
            r matches Some(e) ==> e == spec_error(destroy_code),
    {
        if destroy_code == 0 {
            None
        } else {
            Some(error_from_code(destroy_code))
        }
    }

    /// What registering a single-shot callback comes to, whatever the
    /// operation: on acceptance a fresh token is pending and returned; on
    /// synchronous failure the context is reclaimed — the closure is
    /// invoked zero times, its box released before the call returns — and
    /// the translated error is returned instead. Queues and configuration
    /// are untouched either way.
    pub open spec fn accept_post(
        pre: Discord,
        post: Discord,
        accept_code: i32,
        r: Result<u64, Error>,
    ) -> bool {
        &&& post.wf()
        &&& Discord::same_identity(pre, post)
        &&& post.overlay_history() == pre.overlay_history()
        &&& post.lobby_history() == pre.lobby_history()
        &&& post.fetch_handles() == pre.fetch_handles()
        &&& post.tokens_issued() == pre.tokens_issued() + 1
        &&& if accept_code == 0 {
            r matches Ok(token) && {
                &&& !pre.pending_tokens().contains(token)
                &&& post.pending_tokens() == pre.pending_tokens().insert(token)
            }
        } else {
            &&& r == Result::<u64, Error>::Err(spec_error(accept_code))
            &&& post.pending_tokens() == pre.pending_tokens()
        }
    }

    /// Registers one single-shot callback context and completes the
    /// registration against the native accept code the driver observed.
    fn accept_callback(&mut self, accept_code: i32) -> (r: Result<u64, Error>)
        requires
            old(self).wf(),
            old(self).can_register(),
        ensures
            Discord::accept_post(*old(self), *final(self), accept_code, r),
    {
        let token = self.callbacks.register();
        if accept_code == 0 {
            Ok(token)
        } else {
            self.callbacks.reclaim(token);
            proof {
                assert(self.callbacks.pending_tokens() =~= old(
                    self,
                ).callbacks.pending_tokens());
            }
            Err(error_from_code(accept_code))
        }
    }

    /// Asks the native overlay manager to open or close the overlay. The
    /// driver hands the closure's context to the native call and passes
    /// the accept code in; see [`Self::accept_post`] for what each outcome
    /// means for the pending contexts.
    #[allow(unused_variables)]
    pub fn set_overlay_opened(&mut self, opened: bool, accept_code: i32) -> (r: Result<u64, Error>)
        requires
            old(self).wf(),
            old(self).can_register(),
        ensures
            Discord::accept_post(*old(self), *final(self), accept_code, r),
    {
        self.accept_callback(accept_code)
    }

    /// Asks the native overlay manager to open the invitation overlay for
    /// an activity action.
    #[allow(unused_variables)]
    pub fn open_invite_overlay(&mut self, action: Action, accept_code: i32) -> (r: Result<
        u64,
        Error,
    >)
        requires
            old(self).wf(),
            old(self).can_register(),
        ensures
            Discord::accept_post(*old(self), *final(self), accept_code, r),
    {
        self.accept_callback(accept_code)
    }

    /// Asks the native overlay manager to open the voice-settings overlay.
    pub fn open_voice_settings(&mut self, accept_code: i32) -> (r: Result<u64, Error>)
        requires
            old(self).wf(),
            old(self).can_register(),
        ensures
            Discord::accept_post(*old(self), *final(self), accept_code, r),
    {
        self.accept_callback(accept_code)
    }

    /// Asks the native overlay manager to open the invite overlay for a
    /// guild invite code. The code crosses the boundary as a C string: a
    /// code with an interior zero byte is a caller mistake, rejected
    /// before any native call, with nothing registered and the handle
    /// untouched.
    pub fn open_guild_invite_overlay(&mut self, code: &str, accept_code: i32) -> (r: Result<
        u64,
        Error,
    >)
        requires
            old(self).wf(),
            old(self).can_register(),
        ensures
            has_interior_nul(code) ==> *final(self) == *old(self) && r
                == Result::<u64, Error>::Err(
                Error::DeveloperViolation(DeveloperViolation::InteriorNul),
            ),
            !has_interior_nul(code) ==> Discord::accept_post(
                *old(self),
                *final(self),
                accept_code,
                r,
            ),
    {
        if str_has_nul(code) {
            return Err(Error::DeveloperViolation(DeveloperViolation::InteriorNul));
        }
        self.accept_callback(accept_code)
    }

    /// Asks the native image manager to fetch an image. On acceptance the
    /// fresh token is recorded against the handle, so that the delivery
    /// through [`Self::deliver_fetch`] hands the closure exactly this
    /// handle back on success.
    #[allow(unused_variables)]
    pub fn fetch_image(
        &mut self,
        handle: ImageHandle,
        refresh: bool,
        accept_code: i32,
    ) -> (r: Result<u64, Error>)
        requires
            old(self).wf(),
            old(self).can_register(),
        ensures
            final(self).wf(),
            Discord::same_identity(*old(self), *final(self)),
            final(self).overlay_history() == old(self).overlay_history(),
            final(self).lobby_history() == old(self).lobby_history(),
            final(self).tokens_issued() == old(self).tokens_issued() + 1,
            accept_code == 0 ==> (r matches Ok(token) && {
                &&& !old(self).pending_tokens().contains(token)
                &&& final(self).pending_tokens() == old(self).pending_tokens().insert(token)
                &&& final(self).fetch_handles() == old(self).fetch_handles().insert(
                    token,
                    handle,
                )
            }),
            accept_code != 0 ==> {
                &&& r == Result::<u64, Error>::Err(spec_error(accept_code))
                &&& final(self).pending_tokens() == old(self).pending_tokens()
                &&& final(self).fetch_handles() == old(self).fetch_handles()
            },
    {
        let registered = self.accept_callback(accept_code);
        if let Ok(token) = registered {
            self.fetches.insert(token, handle);
            Ok(token)
        } else {
            registered
        }
    }

    /// Translates what the native dimensions query returned: the reported
    /// dimensions on success, the translated error otherwise.
    #[allow(unused_variables)]
    pub fn image_dimensions(
        &mut self,
        handle: ImageHandle,
        code: i32,
        width: u32,
        height: u32,
    ) -> (r: Result<(u32, u32), Error>)
        ensures
            *final(self) == *old(self),
            code == 0 ==> r == Result::<(u32, u32), Error>::Ok((width, height)),
            code != 0 ==> r == Result::<(u32, u32), Error>::Err(spec_error(code)),
    {
        if code == 0 {
            Ok((width, height))
        } else {
            Err(error_from_code(code))
        }
    }

    /// Assembles a whole image out of the two native calls the driver
    /// made: the dimensions query, then the data call into a buffer of
    /// exactly four bytes per reported pixel (sized with
    /// [`crate::image::image_data_len`]). The first failing code comes
    /// back translated; otherwise the filled buffer becomes the image.
    #[allow(unused_variables)]
    pub fn image(
        &mut self,
        handle: ImageHandle,
        dims_code: i32,
        width: u32,
        height: u32,
        data_code: i32,
        data: Vec<u8>,
    ) -> (r: Result<Image, Error>)
        requires
            dims_code == 0 && data_code == 0 ==> data@.len() == 4 * (width as int) * (
            height as int),
        ensures
            *final(self) == *old(self),
            dims_code != 0 ==> r == Result::<Image, Error>::Err(spec_error(dims_code)),
            dims_code == 0 && data_code != 0 ==> r == Result::<Image, Error>::Err(
                spec_error(data_code),
            ),
            dims_code == 0 && data_code == 0 ==> (r matches Ok(img) && {
                &&& img.wf()
                &&& img.spec_width() == width
                &&& img.spec_height() == height
                &&& img.spec_data() == data@
            }),
    {
        if dims_code != 0 {
            return Err(error_from_code(dims_code));
        }
        if data_code != 0 {
            return Err(error_from_code(data_code));
        }
        match Image::from_native(width, height, data) {
            Some(img) => Ok(img),
            None => Err(Error::InternalError),
        }
    }

    /// Translates what the native enabled query returned.
    pub fn is_overlay_enabled(&self, code: i32, enabled: bool) -> (r: Result<bool, Error>)
        ensures
            code == 0 ==> r == Result::<bool, Error>::Ok(enabled),
            code != 0 ==> r == Result::<bool, Error>::Err(spec_error(code)),
    {
        if code == 0 {
            Ok(enabled)
        } else {
            Err(error_from_code(code))
        }
    }

    /// Translates what the native locked query returned.
    pub fn is_overlay_opened(&self, code: i32, opened: bool) -> (r: Result<bool, Error>)
        ensures
            code == 0 ==> r == Result::<bool, Error>::Ok(opened),
            code != 0 ==> r == Result::<bool, Error>::Err(spec_error(code)),
    {
        if code == 0 {
            Ok(opened)
        } else {
            Err(error_from_code(code))
        }
    }

    /// Delivers a native completion for a single-shot callback token,
    /// called by the driver's trampoline during the pump. For a pending
    /// token the translated result to hand to the closure comes back and
    /// the token stops being pending, so delivering it a second time finds
    /// nothing; for anything else nothing comes back and the handle is
    /// untouched. A token registered through [`Self::fetch_image`] is
    /// delivered through [`Self::deliver_fetch`] instead, which also hands
    /// back the operation's payload.
    pub fn deliver_callback(&mut self, token: u64, code: i32) -> (r: Option<Result<(), Error>>)
        requires
            old(self).wf(),
        ensures
            final(self).wf(),
            Discord::same_identity(*old(self), *final(self)),
            final(self).overlay_history() == old(self).overlay_history(),
            final(self).lobby_history() == old(self).lobby_history(),
            final(self).fetch_handles() == old(self).fetch_handles(),
            final(self).tokens_issued() == old(self).tokens_issued(),
            final(self).pending_tokens() == deliver_outcome(
                old(self).pending_tokens(),
                token,
            ).0,
            r is Some == deliver_outcome(old(self).pending_tokens(), token).1,
            r matches Some(v) ==> v == spec_result(code),
    {
        self.callbacks.deliver(token, code)
    }

    /// Delivers a native completion for an image-fetch token. For a
    /// pending token registered through [`Self::fetch_image`], the result
    /// to hand to the closure comes back: on result code zero that is
    /// exactly the handle the fetch was registered with, on any other code
    /// the translated error; either way the token stops being pending and
    /// its handle record is released, so a second delivery finds nothing.
    /// For any other token nothing comes back and the handle is untouched.
    pub fn deliver_fetch(&mut self, token: u64, code: i32) -> (r: Option<
        Result<ImageHandle, Error>,
    >)
        requires
            old(self).wf(),
        ensures
            final(self).wf(),
            Discord::same_identity(*old(self), *final(self)),
            final(self).overlay_history() == old(self).overlay_history(),
            final(self).lobby_history() == old(self).lobby_history(),
            final(self).tokens_issued() == old(self).tokens_issued(),
            old(self).pending_tokens().contains(token) && old(self).fetch_handles().contains_key(
                token,
            ) ==> {
                &&& final(self).pending_tokens() == old(self).pending_tokens().remove(token)
                &&& final(self).fetch_handles() == old(self).fetch_handles().remove(token)
                &&& r == Some(
                    if code == 0 {
                        Result::<ImageHandle, Error>::Ok(old(self).fetch_handles()[token])
                    } else {
                        Result::<ImageHandle, Error>::Err(spec_error(code))
                    },
                )
            },
            !(old(self).pending_tokens().contains(token)
                && old(self).fetch_handles().contains_key(token)) ==> {
                &&& r is None
                &&& *final(self) == *old(self)
            },
    {
        if !self.callbacks.is_pending(token) {
            return None;
        }
        if !self.fetches.contains_key(&token) {
            return None;
        }
        let handle = self.fetches.remove(&token).unwrap();
        let delivered = self.callbacks.deliver(token, code);
        match delivered {
            Some(Ok(())) => Some(Ok(handle)),
            Some(Err(err)) => Some(Err(err)),
            None => None,
        }
    }

    /// Whether the native runtime currently owns the context named by this
    /// token.
    pub fn is_callback_pending(&self, token: u64) -> (r: bool)
        ensures
            r == self.pending_tokens().contains(token),
    {
        self.callbacks.is_pending(token)
    }

    /// How many callback contexts the native runtime currently owns.
    pub fn pending_callbacks(&self) -> (n: usize)
        requires
            self.wf(),
        ensures
            n == self.pending_tokens().len(),
    {
        self.callbacks.pending_count()
    }

    /// Enqueues an overlay event, called by the driver's overlay trampoline
    /// during the pump. Appends to the overlay queue and touches nothing
    /// else; every reader of the queue will observe it, in enqueue order.
    pub fn push_overlay_event(&mut self, event: Event)
        requires
            old(self).wf(),
            event.spec_category() == EventCategory::Overlay,
        ensures
            final(self).wf(),
            Discord::same_identity(*old(self), *final(self)),
            final(self).overlay_history() == old(self).overlay_history().push(event),
            final(self).lobby_history() == old(self).lobby_history(),
            final(self).pending_tokens() == old(self).pending_tokens(),
            final(self).fetch_handles() == old(self).fetch_handles(),
            final(self).tokens_issued() == old(self).tokens_issued(),
    {
        channel_write(&mut self.overlay_events, event);
    }

    /// Enqueues a lobby event, called by the driver's lobby trampoline
    /// during the pump.
    pub fn push_lobby_event(&mut self, event: Event)
        requires
            old(self).wf(),
            event.spec_category() == EventCategory::Lobby,
        ensures
            final(self).wf(),
            Discord::same_identity(*old(self), *final(self)),
            final(self).lobby_history() == old(self).lobby_history().push(event),
            final(self).overlay_history() == old(self).overlay_history(),
            final(self).pending_tokens() == old(self).pending_tokens(),
            final(self).fetch_handles() == old(self).fetch_handles(),
            final(self).tokens_issued() == old(self).tokens_issued(),
    {
        channel_write(&mut self.lobby_events, event);
    }

    /// Registers a reader on the overlay queue. The reader's cursor starts
    /// at the queue's tail: it will observe exactly the events enqueued
    /// after this registration, never any enqueued before.
    pub fn overlay_events_reader(&mut self) -> (r: shrev::ReaderId<Event>)
        requires
            old(self).wf(),
        ensures
            final(self).wf(),
            Discord::same_identity(*old(self), *final(self)),
            final(self).overlay_history() == old(self).overlay_history(),
            final(self).lobby_history() == old(self).lobby_history(),
            final(self).pending_tokens() == old(self).pending_tokens(),
            final(self).fetch_handles() == old(self).fetch_handles(),
            final(self).tokens_issued() == old(self).tokens_issued(),
            reader_instance(r) == final(self).overlay_instance(),
            reader_cursor(r) == final(self).overlay_history().len(),
    {
        channel_register_reader(&mut self.overlay_events)
    }

    /// Drains the overlay queue for one reader: exactly the events
    /// enqueued since that reader's last drain (or registration), in
    /// enqueue order, all of the overlay category. Only this reader's
    /// cursor advances; the queue and every other reader are untouched,
    /// so independent readers drain the same events at their own pace.
    pub fn overlay_events(&self, reader: &mut shrev::ReaderId<Event>) -> (out: Vec<Event>)
        requires
            self.wf(),
            reader_instance(*old(reader)) == self.overlay_instance(),
            0 <= reader_cursor(*old(reader)) <= self.overlay_history().len(),
        ensures
            out@ == self.overlay_history().subrange(
                reader_cursor(*old(reader)),
                self.overlay_history().len() as int,
            ),
            reader_cursor(*final(reader)) == self.overlay_history().len(),
            reader_instance(*final(reader)) == reader_instance(*old(reader)),
            forall|i: int| 0 <= i < out@.len()
                ==> out@[i].spec_category() == EventCategory::Overlay,
    {
        channel_read(&self.overlay_events, reader)
    }

    /// Registers a reader on the lobby queue; see
    /// [`Self::overlay_events_reader`].
    pub fn lobby_events_reader(&mut self) -> (r: shrev::ReaderId<Event>)
        requires
            old(self).wf(),
        ensures
            final(self).wf(),
            Discord::same_identity(*old(self), *final(self)),
            final(self).overlay_history() == old(self).overlay_history(),
            final(self).lobby_history() == old(self).lobby_history(),
            final(self).pending_tokens() == old(self).pending_tokens(),
            final(self).fetch_handles() == old(self).fetch_handles(),
            final(self).tokens_issued() == old(self).tokens_issued(),
            reader_instance(r) == final(self).lobby_instance(),
            reader_cursor(r) == final(self).lobby_history().len(),
    {
        channel_register_reader(&mut self.lobby_events)
    }

    /// Drains the lobby queue for one reader; see [`Self::overlay_events`].
    pub fn lobby_events(&self, reader: &mut shrev::ReaderId<Event>) -> (out: Vec<Event>)
        requires
            self.wf(),
            reader_instance(*old(reader)) == self.lobby_instance(),
            0 <= reader_cursor(*old(reader)) <= self.lobby_history().len(),
        ensures
            out@ == self.lobby_history().subrange(
                reader_cursor(*old(reader)),
                self.lobby_history().len() as int,
            ),
            reader_cursor(*final(reader)) == self.lobby_history().len(),
            reader_instance(*final(reader)) == reader_instance(*old(reader)),
            forall|i: int| 0 <= i < out@.len() ==> out@[i].spec_category() == EventCategory::Lobby,
    {
        channel_read(&self.lobby_events, reader)
    }
}

/// Returns whether the string holds a zero byte — whether handing it to a
/// C-string parameter would be a caller mistake. The driver consults this
/// before any native call so that such a string never reaches the
/// boundary.
pub fn str_has_nul(s: &str) -> (r: bool)
    ensures
        r == has_interior_nul(s),
{
    let bytes = s.as_bytes();
    let mut i: usize = 0;
    while i < bytes.len()
        invariant
            bytes@ == s.spec_bytes(),
            i <= bytes@.len(),
            forall|k: int| 0 <= k < i ==> bytes@[k] != 0,
        decreases bytes@.len() - i,
    {
        if bytes[i] == 0 {
            return true;
        }
        i = i + 1;
    }
    false
}

} // verus!

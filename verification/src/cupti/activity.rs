//! Activity buffers, the process-wide activity callback registry, and in-memory collection.
//!
//! CUPTI hands completed activity buffers to a single process-wide callback. The
//! registry here holds the state that callback reads: who owns the registration,
//! how large the requested buffers are, and which owner identifier comes next.
//! Every decision taken around the CUPTI calls (what buffer to hand out, how many
//! valid bytes to pass on, which registration a release may clear) is a function
//! of that state.
pub mod attribute;
pub mod record;

use vstd::prelude::*;
use crate::cupti::error::{Error, Result, Status};
use crate::cupti::types::{ActivityKind, ActivityUnifiedMemoryCounterConfig, RawActivityUnifiedMemoryCounterConfig, StreamId};
use crate::cupti::utility::to_u32;

verus! {

/// Alignment, in bytes, of every buffer handed to CUPTI for activity records.
pub const ACTIVITY_BUFFER_ALIGNMENT: usize = 8;

/// Whether `Layout::from_size_align(size, align)` accepts the pair, as its
/// documentation describes: `align` is a power of two and `size`, rounded up to a
/// multiple of `align`, does not exceed `isize::MAX`.
pub open spec fn valid_buffer_layout(size: usize, align: usize) -> bool {
    vstd::layout::valid_layout(size, align)
}

/// `std::alloc::Layout::from_size_align`: claimed to succeed exactly on the pairs that
/// its documentation accepts (`vstd::layout::valid_layout`).
#[verifier::external_body]
fn layout_from_size_align_is_ok(size: usize, align: usize) -> (ok: bool)
    ensures
        ok == valid_buffer_layout(size, align),
{
    std::alloc::Layout::from_size_align(size, align).is_ok()
}

/// Size and alignment of an activity buffer allocation.
#[derive(Debug, Clone, Copy, PartialEq, Eq, Structural)]
pub struct ActivityBufferLayout {
    pub size: usize,
    pub align: usize,
}

/// The layout of an activity buffer of `size` bytes, aligned to
/// [`ACTIVITY_BUFFER_ALIGNMENT`], or `None` when no such layout exists.
pub fn activity_buffer_layout(size: usize) -> (r: Option<ActivityBufferLayout>)
    ensures
        match r {
            Some(layout) => layout.size == size && layout.align == ACTIVITY_BUFFER_ALIGNMENT
                && valid_buffer_layout(size, ACTIVITY_BUFFER_ALIGNMENT),
            None => !valid_buffer_layout(size, ACTIVITY_BUFFER_ALIGNMENT),
        },
{
    if layout_from_size_align_is_ok(size, ACTIVITY_BUFFER_ALIGNMENT) {
        Some(ActivityBufferLayout { size, align: ACTIVITY_BUFFER_ALIGNMENT })
    } else {
        None
    }
}

/// A completed activity buffer lent to the completion callback.
#[derive(Debug, Clone, Copy)]
pub struct ActivityBuffer<'a> {
    bytes: &'a [u8],
}

impl<'a> View for ActivityBuffer<'a> {
    type V = Seq<u8>;

    closed spec fn view(&self) -> Seq<u8> {
        self.bytes@
    }
}

impl<'a> ActivityBuffer<'a> {
    /// Wraps the valid bytes of a completed buffer.
    pub fn new(bytes: &'a [u8]) -> (r: Self)
        ensures
            r@ == bytes@,
    {
        ActivityBuffer { bytes }
    }

    /// Returns the valid activity bytes of the buffer.
    pub fn bytes(self) -> (r: &'a [u8])
        ensures
            r@ == self@,
    {
        self.bytes
    }

    /// Returns the number of valid bytes.
    pub fn len(self) -> (r: usize)
        ensures
            r == self@.len(),
    {
        self.bytes.len()
    }

    /// Returns `true` if the buffer holds no valid bytes.
    pub fn is_empty(self) -> (r: bool)
        ensures
            r == (self@.len() == 0),
    {
        self.bytes.len() == 0
    }

    /// Starts a walk over the activity records of the buffer.
    pub fn records(self) -> (r: ActivityRecords<'a>)
        ensures
            r.bytes() == self@,
            r.valid_size_bytes() == self@.len(),
            r.current() is None,
            !r.is_finished(),
    {
        ActivityRecords::over(self.bytes)
    }
}

/// An owned copy of a completed activity buffer.
#[derive(Debug, Clone)]
pub struct ActivityBufferOwned {
    bytes: Vec<u8>,
}

impl View for ActivityBufferOwned {
    type V = Seq<u8>;

    closed spec fn view(&self) -> Seq<u8> {
        self.bytes@
    }
}

impl ActivityBufferOwned {
    /// Copies the bytes of a completed buffer.
    pub fn copy_of(buffer: ActivityBuffer<'_>) -> (r: Self)
        ensures
            r@ == buffer@,
    {
        ActivityBufferOwned { bytes: vstd::slice::slice_to_vec(buffer.bytes()) }
    }

    /// Returns the raw CUPTI activity bytes captured from a completed buffer.
    pub fn bytes(&self) -> (r: &[u8])
        ensures
            r@ == self@,
    {
        self.bytes.as_slice()
    }

    /// Gives up the buffer and returns its bytes.
    pub fn into_bytes(self) -> (r: Vec<u8>)
        ensures
            r@ == self@,
    {
        self.bytes
    }

    /// Returns the number of captured bytes.
    pub fn len(&self) -> (r: usize)
        ensures
            r == self@.len(),
    {
        self.bytes.len()
    }

    /// Returns `true` if no bytes were captured.
    pub fn is_empty(&self) -> (r: bool)
        ensures
            r == (self@.len() == 0),
    {
        self.bytes.len() == 0
    }

    /// Starts a walk over the activity records of the captured bytes.
    pub fn records(&self) -> (r: ActivityRecords<'_>)
        ensures
            r.bytes() == self@,
            r.valid_size_bytes() == self@.len(),
            r.current() is None,
            !r.is_finished(),
    {
        ActivityRecords::over(self.bytes.as_slice())
    }
}

/// Cursor of a walk over the records of an activity buffer.
///
/// CUPTI finds each next record (`cuptiActivityGetNextRecord`); the cursor keeps the
/// offset of the record it returned last and whether the walk has ended, and
/// [`ActivityRecords::advance`] decides what the walk yields for each answer.
#[derive(Debug)]
pub struct ActivityRecords<'a> {
    buffer: &'a [u8],
    valid_size_bytes: u64,
    current: Option<usize>,
    finished: bool,
}

impl<'a> ActivityRecords<'a> {
    /// The bytes walked over.
    pub closed spec fn bytes(&self) -> Seq<u8> {
        self.buffer@
    }

    /// Number of valid bytes reported to CUPTI.
    pub closed spec fn valid_size_bytes(&self) -> u64 {
        self.valid_size_bytes
    }

    /// Offset of the record yielded last, if any.
    pub closed spec fn current(&self) -> Option<usize> {
        self.current
    }

    /// Whether the walk has ended.
    pub closed spec fn is_finished(&self) -> bool {
        self.finished
    }

    fn over(buffer: &'a [u8]) -> (r: Self)
        ensures
            r.bytes() == buffer@,
            r.valid_size_bytes() == buffer@.len(),
            r.current() is None,
            !r.is_finished(),
    {
        ActivityRecords { buffer, valid_size_bytes: buffer.len() as u64, current: None, finished: false }
    }

    /// Returns the bytes walked over.
    pub fn buffer(&self) -> (r: &'a [u8])
        ensures
            r@ == self.bytes(),
    {
        self.buffer
    }

    /// Returns the number of valid bytes to report to CUPTI.
    pub fn valid_len(&self) -> (r: u64)
        ensures
            r == self.valid_size_bytes(),
    {
        self.valid_size_bytes
    }

    /// Returns the offset of the record yielded last, if any.
    pub fn current_offset(&self) -> (r: Option<usize>)
        ensures
            r == self.current(),
    {
        self.current
    }

    /// Returns `true` once the walk has ended.
    pub fn finished(&self) -> (r: bool)
        ensures
            r == self.is_finished(),
    {
        self.finished
    }

    /// Takes CUPTI's answer to a request for the next record and returns what the walk
    /// yields: the offset of the next record, nothing once CUPTI reports that no record
    /// is left (`QueueEmpty`), or the error CUPTI reported. A walk that has ended
    /// yields nothing more, whatever the answer.
    pub fn advance(&mut self, next: Result<usize>) -> (r: Option<Result<usize>>)
        ensures
            final(self).bytes() == old(self).bytes(),
            final(self).valid_size_bytes() == old(self).valid_size_bytes(),
            old(self).is_finished() ==> r is None && final(self).current() == old(self).current()
                && final(self).is_finished(),
            !old(self).is_finished() ==> match next {
                Ok(offset) => r == Some(Ok::<usize, Error>(offset)) && final(self).current() == Some(offset)
                    && !final(self).is_finished(),
                Err(e) => final(self).is_finished() && final(self).current() == old(self).current()
                    && if e matches Error::Cupti { code: Status::QueueEmpty, .. } {
                        r is None
                    } else {
                        r matches Some(Err(e2)) && e2 == e
                    },
            },
    {
        if self.finished {
            return None;
        }
        match next {
            Ok(offset) => {
                self.current = Some(offset);
                Some(Ok(offset))
            },
            Err(e) => {
                self.finished = true;
                match e {
                    Error::Cupti { code: Status::QueueEmpty, .. } => None,
                    e => Some(Err(e)),
                }
            },
        }
    }
}

/// Buffer settings for activity buffer callbacks.
#[derive(Debug, Clone, Copy, PartialEq, Eq, Structural)]
pub struct ActivityBufferCallbackConfig {
    /// Size in bytes of each buffer handed to CUPTI.
    pub buffer_size: usize,
    /// Maximum number of records CUPTI may place in a buffer; 0 lets CUPTI fill it.
    pub max_num_records: usize,
}

impl ActivityBufferCallbackConfig {
    /// A configuration with buffers of `buffer_size` bytes and no record limit.
    pub fn new(buffer_size: usize) -> (r: Self)
        ensures
            r.buffer_size == buffer_size,
            r.max_num_records == 0,
    {
        ActivityBufferCallbackConfig { buffer_size, max_num_records: 0 }
    }

    /// The same configuration with the record limit set to `max_num_records`.
    pub fn with_max_num_records(self, max_num_records: usize) -> (r: Self)
        ensures
            r.buffer_size == self.buffer_size,
            r.max_num_records == max_num_records,
    {
        let mut config = self;
        config.max_num_records = max_num_records;
        config
    }
}

/// The registered activity buffer callback, as the process-wide slot holds it.
#[derive(Debug, Clone, Copy, PartialEq, Eq, Structural)]
pub struct ActivityBufferCallbackState {
    /// Owner of the registration; `None` for a registration nobody releases.
    pub owner_id: Option<u64>,
    /// Size in bytes of each requested buffer.
    pub buffer_size: usize,
    /// Record limit reported with each requested buffer.
    pub max_num_records: usize,
}

/// The state a registration by `owner_id` with `config` installs.
pub open spec fn registered_state(owner_id: Option<u64>, config: ActivityBufferCallbackConfig) -> ActivityBufferCallbackState {
    ActivityBufferCallbackState {
        owner_id,
        buffer_size: config.buffer_size,
        max_num_records: config.max_num_records,
    }
}

/// The slot after `owner_id` releases its registration: cleared if it holds that
/// owner's registration, unchanged otherwise.
pub open spec fn released_slot(slot: Option<ActivityBufferCallbackState>, owner_id: u64) -> Option<ActivityBufferCallbackState> {
    match slot {
        Some(state) => if state.owner_id == Some(owner_id) { None } else { slot },
        None => None,
    }
}

/// The owner identifier handed out after `id`.
pub open spec fn next_id(id: u64) -> u64 {
    if id == u64::MAX { 0 } else { (id + 1) as u64 }
}

/// What a buffer request is answered with: the allocation to make and the record limit.
#[derive(Debug, Clone, Copy, PartialEq, Eq, Structural)]
pub struct ActivityBufferRequest {
    /// Layout of the buffer to allocate.
    pub layout: ActivityBufferLayout,
    /// Size reported to CUPTI.
    pub size: u64,
    /// Record limit reported to CUPTI.
    pub max_num_records: u64,
}

/// The answer to a buffer request made while the slot holds `slot`: no buffer when
/// nothing is registered, the registered size is zero, or no layout exists for it.
pub open spec fn planned_request(slot: Option<ActivityBufferCallbackState>) -> Option<ActivityBufferRequest> {
    match slot {
        Some(state) => if state.buffer_size != 0 && valid_buffer_layout(state.buffer_size, ACTIVITY_BUFFER_ALIGNMENT) {
            Some(ActivityBufferRequest {
                layout: ActivityBufferLayout { size: state.buffer_size, align: ACTIVITY_BUFFER_ALIGNMENT },
                size: state.buffer_size as u64,
                max_num_records: state.max_num_records as u64,
            })
        } else {
            None
        },
        None => None,
    }
}

/// Process-wide activity callback state: the activity buffer callback slot, the
/// owner of the timestamp callback, and the next owner identifier.
pub struct ActivityCallbackRegistry {
    activity: Option<ActivityBufferCallbackState>,
    timestamp_owner: Option<u64>,
    next_owner_id: u64,
    issued: Ghost<Set<u64>>,
    wrapped: Ghost<bool>,
}

impl ActivityCallbackRegistry {
    /// Until the identifiers wrap around, every identifier handed out is below the
    /// next one.
    #[verifier::type_invariant]
    spec fn issued_below_next(self) -> bool {
        !self.wrapped@ ==> forall|i: u64| #[trigger] self.issued@.contains(i) ==> i < self.next_owner_id
    }

    /// The owner identifiers handed out so far.
    pub closed spec fn issued(&self) -> Set<u64> {
        self.issued@
    }

    /// Whether the identifiers have wrapped around: `u64::MAX` has been handed out.
    pub closed spec fn wrapped(&self) -> bool {
        self.wrapped@
    }

    /// The activity buffer callback slot.
    pub closed spec fn slot(&self) -> Option<ActivityBufferCallbackState> {
        self.activity
    }

    /// Owner of the registered timestamp callback, if any.
    pub closed spec fn timestamp_slot(&self) -> Option<u64> {
        self.timestamp_owner
    }

    /// The owner identifier handed out next.
    pub closed spec fn next_owner(&self) -> u64 {
        self.next_owner_id
    }

    /// An empty registry; owner identifiers start at 1.
    pub fn new() -> (r: Self)
        ensures
            r.slot() is None,
            r.timestamp_slot() is None,
            r.next_owner() == 1,
            r.issued() == Set::<u64>::empty(),
            !r.wrapped(),
    {
        ActivityCallbackRegistry {
            activity: None,
            timestamp_owner: None,
            next_owner_id: 1,
            issued: Ghost(Set::empty()),
            wrapped: Ghost(false),
        }
    }

    /// Returns the registered activity buffer callback, if any.
    pub fn state(&self) -> (r: Option<ActivityBufferCallbackState>)
        ensures
            r == self.slot(),
    {
        self.activity
    }

    /// Returns the owner of the registered timestamp callback, if any.
    pub fn timestamp_callback_owner(&self) -> (r: Option<u64>)
        ensures
            r == self.timestamp_slot(),
    {
        self.timestamp_owner
    }

    /// Hands out the next owner identifier, which differs from every identifier handed
    /// out before until the identifiers wrap around after `u64::MAX`.
    pub fn allocate_owner_id(&mut self) -> (id: u64)
        ensures
            id == old(self).next_owner(),
            !old(self).wrapped() ==> !old(self).issued().contains(id),
            final(self).issued() == old(self).issued().insert(id),
            final(self).wrapped() == (old(self).wrapped() || id == u64::MAX),
            final(self).next_owner() == next_id(id),
            final(self).slot() == old(self).slot(),
            final(self).timestamp_slot() == old(self).timestamp_slot(),
    {
        proof {
            use_type_invariant(&*self);
        }
        let id = self.next_owner_id;
        if id == u64::MAX {
            self.wrapped = Ghost(true);
        }
        self.next_owner_id = id.wrapping_add(1);
        self.issued = Ghost(self.issued@.insert(id));
        id
    }

    /// Installs the activity buffer callback of `owner_id` with `config`, given CUPTI's
    /// answer to the registration of the callbacks. When CUPTI refuses, the
    /// installation is undone (for an owned registration only if it is still the
    /// installed one) and CUPTI's error is returned.
    pub fn register_callbacks_with_owner(
        &mut self,
        owner_id: Option<u64>,
        config: ActivityBufferCallbackConfig,
        registered: Result<()>,
    ) -> (r: Result<()>)
        ensures
            final(self).next_owner() == old(self).next_owner(),
            final(self).issued() == old(self).issued(),
            final(self).wrapped() == old(self).wrapped(),
            final(self).timestamp_slot() == old(self).timestamp_slot(),
            match registered {
                Ok(()) => r is Ok && final(self).slot() == Some(registered_state(owner_id, config)),
                Err(e) => r == Err::<(), Error>(e) && final(self).slot() is None,
            },
    {
        proof {
            use_type_invariant(&*self);
        }
        self.activity = Some(ActivityBufferCallbackState {
            owner_id,
            buffer_size: config.buffer_size,
            max_num_records: config.max_num_records,
        });
        match registered {
            Ok(()) => Ok(()),
            Err(error) => {
                match owner_id {
                    Some(owner_id) => self.clear_activity_callbacks_if_owner(owner_id),
                    None => {
                        self.activity = None;
                    },
                }
                Err(error)
            },
        }
    }

    /// Clears the activity buffer callback if `owner_id` owns it; leaves any other
    /// registration in place.
    pub fn clear_activity_callbacks_if_owner(&mut self, owner_id: u64)
        ensures
            final(self).slot() == released_slot(old(self).slot(), owner_id),
            final(self).next_owner() == old(self).next_owner(),
            final(self).issued() == old(self).issued(),
            final(self).wrapped() == old(self).wrapped(),
            final(self).timestamp_slot() == old(self).timestamp_slot(),
    {
        proof {
            use_type_invariant(&*self);
        }
        let owned = match self.activity {
            Some(state) => state.owner_id == Some(owner_id),
            None => false,
        };
        if owned {
            self.activity = None;
        }
    }

    /// Answers CUPTI's request for a new activity buffer.
    pub fn request_activity_buffer(&self) -> (r: Option<ActivityBufferRequest>)
        ensures
            r == planned_request(self.slot()),
    {
        match self.activity {
            Some(state) => {
                if state.buffer_size == 0 {
                    return None;
                }
                match activity_buffer_layout(state.buffer_size) {
                    Some(layout) => Some(ActivityBufferRequest {
                        layout,
                        size: state.buffer_size as u64,
                        max_num_records: state.max_num_records as u64,
                    }),
                    None => None,
                }
            },
            None => None,
        }
    }

    /// Takes the registered activity buffer callback out of the slot while a completed
    /// buffer is handed to it.
    pub fn take_activity_callbacks(&mut self) -> (r: Option<ActivityBufferCallbackState>)
        ensures
            r == old(self).slot(),
            final(self).slot() is None,
            final(self).next_owner() == old(self).next_owner(),
            final(self).issued() == old(self).issued(),
            final(self).wrapped() == old(self).wrapped(),
            final(self).timestamp_slot() == old(self).timestamp_slot(),
    {
        proof {
            use_type_invariant(&*self);
        }
        let taken = self.activity;
        self.activity = None;
        taken
    }

    /// Puts a callback taken by [`Self::take_activity_callbacks`] back into the slot.
    pub fn restore_activity_callbacks(&mut self, state: ActivityBufferCallbackState)
        ensures
            final(self).slot() == Some(state),
            final(self).next_owner() == old(self).next_owner(),
            final(self).issued() == old(self).issued(),
            final(self).wrapped() == old(self).wrapped(),
            final(self).timestamp_slot() == old(self).timestamp_slot(),
    {
        proof {
            use_type_invariant(&*self);
        }
        self.activity = Some(state);
    }
}

/// Number of bytes of a completed buffer to hand to the completion callback, given
/// the buffer size and the valid size CUPTI reports: `None` when the size does not fit
/// in `usize`, otherwise the valid size, or the whole buffer when the valid size is
/// larger than the buffer.
pub fn completed_valid_length(size: u64, valid_size: u64) -> (r: Option<usize>)
    ensures
        size > usize::MAX ==> r is None,
        size <= usize::MAX ==> r == Some((if valid_size <= size { valid_size } else { size }) as usize),
{
    if size > usize::MAX as u64 {
        return None;
    }
    if valid_size <= size {
        Some(valid_size as usize)
    } else {
        Some(size as usize)
    }
}

/// Layout with which a completed buffer is freed: `None` (nothing to free) for a null
/// buffer, a size that does not fit in `usize`, a zero size, or a size without layout.
pub fn completed_buffer_release(buffer_is_null: bool, size: u64) -> (r: Option<ActivityBufferLayout>)
    ensures
        r is Some <==> !buffer_is_null && size <= usize::MAX && size != 0
            && valid_buffer_layout(size as usize, ACTIVITY_BUFFER_ALIGNMENT),
        r matches Some(layout) ==> layout.size == size && layout.align == ACTIVITY_BUFFER_ALIGNMENT,
{
    if buffer_is_null || size > usize::MAX as u64 || size == 0 {
        return None;
    }
    activity_buffer_layout(size as usize)
}

/// Registration of an activity buffer callback; releasing it clears the callback
/// unless another registration has replaced it.
#[derive(Debug)]
pub struct ActivityCallbackRegistration {
    owner_id: u64,
}

impl ActivityCallbackRegistration {
    /// The owner identifier of this registration.
    pub closed spec fn owner(&self) -> u64 {
        self.owner_id
    }

    /// Returns the owner identifier of this registration.
    pub fn owner_id(&self) -> (r: u64)
        ensures
            r == self.owner(),
    {
        self.owner_id
    }

    /// Releases the registration.
    pub fn release(self, registry: &mut ActivityCallbackRegistry)
        ensures
            final(registry).slot() == released_slot(old(registry).slot(), self.owner()),
            final(registry).next_owner() == old(registry).next_owner(),
            final(registry).issued() == old(registry).issued(),
            final(registry).wrapped() == old(registry).wrapped(),
            final(registry).timestamp_slot() == old(registry).timestamp_slot(),
    {
        registry.clear_activity_callbacks_if_owner(self.owner_id);
    }
}

/// Registers process-wide activity buffer callbacks with `config`, given CUPTI's answer
/// to the registration; on success the returned registration owns the slot.
pub fn global_register_callbacks(
    registry: &mut ActivityCallbackRegistry,
    config: ActivityBufferCallbackConfig,
    registered: Result<()>,
) -> (r: Result<ActivityCallbackRegistration>)
    ensures
        final(registry).next_owner() == next_id(old(registry).next_owner()),
        final(registry).issued() == old(registry).issued().insert(old(registry).next_owner()),
        final(registry).wrapped() == (old(registry).wrapped() || old(registry).next_owner() == u64::MAX),
        final(registry).timestamp_slot() == old(registry).timestamp_slot(),
        match registered {
            Ok(()) => r matches Ok(reg) && reg.owner() == old(registry).next_owner()
                && (!old(registry).wrapped() ==> !old(registry).issued().contains(reg.owner()))
                && final(registry).slot() == Some(registered_state(Some(old(registry).next_owner()), config)),
            Err(e) => r matches Err(e2) && e2 == e && final(registry).slot() is None,
        },
{
    let owner_id = registry.allocate_owner_id();
    match registry.register_callbacks_with_owner(Some(owner_id), config, registered) {
        Ok(()) => Ok(ActivityCallbackRegistration { owner_id }),
        Err(e) => Err(e),
    }
}

/// Registration of the process-wide timestamp callback; releasing it clears the
/// callback unless another registration has replaced it.
#[derive(Debug)]
pub struct TimestampCallbackRegistration {
    owner_id: u64,
}

impl TimestampCallbackRegistration {
    /// The owner identifier of this registration.
    pub closed spec fn owner(&self) -> u64 {
        self.owner_id
    }

    /// Returns the owner identifier of this registration.
    pub fn owner_id(&self) -> (r: u64)
        ensures
            r == self.owner(),
    {
        self.owner_id
    }

    /// Releases the registration.
    pub fn release(self, registry: &mut ActivityCallbackRegistry)
        ensures
            final(registry).timestamp_slot() == (if old(registry).timestamp_slot() == Some(self.owner()) {
                None
            } else {
                old(registry).timestamp_slot()
            }),
            final(registry).slot() == old(registry).slot(),
            final(registry).next_owner() == old(registry).next_owner(),
            final(registry).issued() == old(registry).issued(),
            final(registry).wrapped() == old(registry).wrapped(),
    {
        proof {
            use_type_invariant(&*registry);
        }
        if registry.timestamp_owner == Some(self.owner_id) {
            registry.timestamp_owner = None;
        }
    }
}

/// Registers the process-wide timestamp callback, given CUPTI's answer to the
/// registration; on refusal the installation is undone and CUPTI's error returned.
pub fn register_timestamp_callback(
    registry: &mut ActivityCallbackRegistry,
    registered: Result<()>,
) -> (r: Result<TimestampCallbackRegistration>)
    ensures
        final(registry).next_owner() == next_id(old(registry).next_owner()),
        final(registry).issued() == old(registry).issued().insert(old(registry).next_owner()),
        final(registry).wrapped() == (old(registry).wrapped() || old(registry).next_owner() == u64::MAX),
        final(registry).slot() == old(registry).slot(),
        match registered {
            Ok(()) => r matches Ok(reg) && reg.owner() == old(registry).next_owner()
                && (!old(registry).wrapped() ==> !old(registry).issued().contains(reg.owner()))
                && final(registry).timestamp_slot() == Some(old(registry).next_owner()),
            Err(e) => r matches Err(e2) && e2 == e && final(registry).timestamp_slot() is None,
        },
{
    let owner_id = registry.allocate_owner_id();
    proof {
        use_type_invariant(&*registry);
    }
    registry.timestamp_owner = Some(owner_id);
    match registered {
        Ok(()) => Ok(TimestampCallbackRegistration { owner_id }),
        Err(error) => {
            if registry.timestamp_owner == Some(owner_id) {
                registry.timestamp_owner = None;
            }
            Err(error)
        },
    }
}

/// Collects completed activity buffers in memory.
#[derive(Debug)]
pub struct ActivityCollector {
    owner_id: u64,
    buffers: Vec<ActivityBufferOwned>,
}

impl ActivityCollector {
    /// The owner identifier of the collector's registration.
    pub closed spec fn owner(&self) -> u64 {
        self.owner_id
    }

    /// The buffers collected and not yet taken, in completion order.
    pub closed spec fn collected(&self) -> Seq<Seq<u8>> {
        self.buffers@.map_values(|b: ActivityBufferOwned| b@)
    }

    /// Registers the activity buffer callback for a new collector, given CUPTI's answer
    /// to the registration. CUPTI supports one process-wide activity buffer callback:
    /// a new collector replaces the previous callback owner.
    pub fn create(
        registry: &mut ActivityCallbackRegistry,
        config: ActivityBufferCallbackConfig,
        registered: Result<()>,
    ) -> (r: Result<Self>)
        ensures
            final(registry).next_owner() == next_id(old(registry).next_owner()),
            final(registry).issued() == old(registry).issued().insert(old(registry).next_owner()),
            final(registry).wrapped() == (old(registry).wrapped() || old(registry).next_owner() == u64::MAX),
        final(registry).issued() == old(registry).issued().insert(old(registry).next_owner()),
        final(registry).wrapped() == (old(registry).wrapped() || old(registry).next_owner() == u64::MAX),
            final(registry).timestamp_slot() == old(registry).timestamp_slot(),
            match registered {
                Ok(()) => r matches Ok(c) && c.owner() == old(registry).next_owner() && c.collected().len() == 0
                    && (!old(registry).wrapped() ==> !old(registry).issued().contains(c.owner()))
                    && final(registry).slot() == Some(registered_state(Some(old(registry).next_owner()), config)),
                Err(e) => r matches Err(e2) && e2 == e && final(registry).slot() is None,
            },
    {
        let owner_id = registry.allocate_owner_id();
        match registry.register_callbacks_with_owner(Some(owner_id), config, registered) {
            Ok(()) => {
                let c = ActivityCollector { owner_id, buffers: Vec::new() };
                assert(c.collected() =~= Seq::<Seq<u8>>::empty());
                Ok(c)
            },
            Err(e) => Err(e),
        }
    }

    /// Stores a copy of a completed buffer; this is the collector's completion callback.
    pub fn record_completed(&mut self, buffer: ActivityBuffer<'_>)
        ensures
            final(self).collected() == old(self).collected().push(buffer@),
            final(self).owner() == old(self).owner(),
    {
        self.buffers.push(ActivityBufferOwned::copy_of(buffer));
        assert(self.collected() =~= old(self).collected().push(buffer@));
    }

    /// Returns the number of buffers collected and not yet taken.
    pub fn len(&self) -> (r: usize)
        ensures
            r == self.collected().len(),
    {
        self.buffers.len()
    }

    /// Returns `true` if no buffer is waiting to be taken.
    pub fn is_empty(&self) -> (r: bool)
        ensures
            r == (self.collected().len() == 0),
    {
        self.buffers.len() == 0
    }

    /// Removes all completed buffers from this collector and returns them.
    pub fn take_buffers(&mut self) -> (r: Vec<ActivityBufferOwned>)
        ensures
            r@.map_values(|b: ActivityBufferOwned| b@) == old(self).collected(),
            final(self).collected().len() == 0,
            final(self).owner() == old(self).owner(),
    {
        let mut taken = Vec::new();
        core::mem::swap(&mut taken, &mut self.buffers);
        assert(self.collected() =~= Seq::<Seq<u8>>::empty());
        taken
    }

    /// Releases the collector: its callback registration is cleared unless another
    /// registration has replaced it.
    pub fn release(self, registry: &mut ActivityCallbackRegistry)
        ensures
            final(registry).slot() == released_slot(old(registry).slot(), self.owner()),
            final(registry).next_owner() == old(registry).next_owner(),
            final(registry).issued() == old(registry).issued(),
            final(registry).wrapped() == old(registry).wrapped(),
            final(registry).timestamp_slot() == old(registry).timestamp_slot(),
    {
        registry.clear_activity_callbacks_if_owner(self.owner_id);
    }
}

/// The bytes of a completed buffer handed to the completion callback: its first
/// `valid_size` bytes, or all of it when CUPTI reports more valid bytes than it holds.
pub open spec fn completed_bytes(bytes: Seq<u8>, valid_size: u64) -> Seq<u8> {
    if valid_size <= bytes.len() {
        bytes.take(valid_size as int)
    } else {
        bytes
    }
}

/// First step of handling a buffer that CUPTI has filled: for a non-null buffer
/// (`buffer`, the whole allocation of `size` bytes) and a registered callback, takes
/// the callback out of the slot and returns it with the valid bytes to hand it. With
/// a null buffer or no callback nothing is handed out and the slot is unchanged. The
/// caller calls the callback, puts it back with
/// [`ActivityCallbackRegistry::restore_activity_callbacks`], and only then frees the
/// buffer as [`completed_buffer_release`] says.
pub fn take_completed_buffer<'a>(
    registry: &mut ActivityCallbackRegistry,
    buffer: Option<&'a [u8]>,
    size: u64,
    valid_size: u64,
) -> (r: Option<(ActivityBufferCallbackState, ActivityBuffer<'a>)>)
    requires
        buffer matches Some(b) ==> b@.len() == size,
    ensures
        final(registry).next_owner() == old(registry).next_owner(),
        final(registry).issued() == old(registry).issued(),
        final(registry).wrapped() == old(registry).wrapped(),
        final(registry).timestamp_slot() == old(registry).timestamp_slot(),
        match buffer {
            None => r is None && final(registry).slot() == old(registry).slot(),
            Some(b) => match old(registry).slot() {
                None => r is None && final(registry).slot() is None,
                Some(state) => r matches Some((taken, delivered)) && taken == state
                    && delivered@ == completed_bytes(b@, valid_size) && final(registry).slot() is None,
            },
        },
{
    let bytes = match buffer {
        Some(bytes) => bytes,
        None => return None,
    };
    let len = bytes.len();
    assert(size == len);
    let valid = match completed_valid_length(size, valid_size) {
        Some(valid) => valid,
        None => return None,
    };
    match registry.take_activity_callbacks() {
        Some(state) => {
            let delivered = vstd::slice::slice_subrange(bytes, 0, valid);
            assert(delivered@ =~= completed_bytes(bytes@, valid_size));
            Some((state, ActivityBuffer::new(delivered)))
        },
        None => None,
    }
}

/// A buffer collected by a collector keeps exactly its valid bytes: its length is the
/// valid size CUPTI reported, or the buffer's size when that is smaller, and so is
/// the length of the copy [`ActivityCollector::take_buffers`] hands back.
pub proof fn lemma_collected_buffer_has_valid_length(collected: Seq<Seq<u8>>, bytes: Seq<u8>, valid_size: u64)
    ensures
        collected.push(completed_bytes(bytes, valid_size)).last().len() == (if valid_size <= bytes.len() {
            valid_size as int
        } else {
            bytes.len() as int
        }),
{
}

/// The buffers a collector holds after the buffers `completed` complete one after
/// another, starting from the buffers `collected`.
pub open spec fn after_completions(collected: Seq<Seq<u8>>, completed: Seq<Seq<u8>>) -> Seq<Seq<u8>>
    decreases completed.len(),
{
    if completed.len() == 0 {
        collected
    } else {
        after_completions(collected, completed.drop_last()).push(completed.last())
    }
}

/// After the buffers are taken, a collector holds exactly the buffers completed since,
/// in completion order, so its count is the number of buffers completed since the last
/// take.
pub proof fn lemma_collector_holds_completions_since_take(completed: Seq<Seq<u8>>)
    ensures
        after_completions(Seq::empty(), completed) == completed,
        after_completions(Seq::empty(), completed).len() == completed.len(),
    decreases completed.len(),
{
    if completed.len() > 0 {
        lemma_collector_holds_completions_since_take(completed.drop_last());
        assert(completed.drop_last().push(completed.last()) =~= completed);
    }
}

/// Releasing a registration clears the slot when that registration is still the one
/// installed.
pub proof fn lemma_release_clears_own_registration(owner_id: u64, config: ActivityBufferCallbackConfig)
    ensures
        released_slot(Some(registered_state(Some(owner_id), config)), owner_id) is None,
{
}

/// Owner identifiers are handed out in turn, so a registration made after another one
/// has a different owner, and releasing the earlier one leaves the later in place.
pub proof fn lemma_release_keeps_later_registration(owner_id: u64, config: ActivityBufferCallbackConfig)
    ensures
        next_id(owner_id) != owner_id,
        released_slot(Some(registered_state(Some(next_id(owner_id)), config)), owner_id)
            == Some(registered_state(Some(next_id(owner_id)), config)),
{
}

/// A registration nobody owns (a global registration without owner) is never cleared
/// by a release.
pub proof fn lemma_release_keeps_unowned_registration(owner_id: u64, config: ActivityBufferCallbackConfig)
    ensures
        released_slot(Some(registered_state(None, config)), owner_id) == Some(registered_state(None, config)),
{
}

/// While a callback with a nonzero buffer size is registered, every buffer request is
/// answered with a buffer of exactly that size, aligned to
/// [`ACTIVITY_BUFFER_ALIGNMENT`], and the registered record limit; with no
/// registration or a zero size no buffer is handed out.
pub proof fn lemma_request_follows_registration(owner_id: Option<u64>, config: ActivityBufferCallbackConfig)
    ensures
        config.buffer_size != 0 && valid_buffer_layout(config.buffer_size, ACTIVITY_BUFFER_ALIGNMENT)
            ==> planned_request(Some(registered_state(owner_id, config))) == Some(ActivityBufferRequest {
                layout: ActivityBufferLayout { size: config.buffer_size, align: ACTIVITY_BUFFER_ALIGNMENT },
                size: config.buffer_size as u64,
                max_num_records: config.max_num_records as u64,
            }),
        config.buffer_size == 0 ==> planned_request(Some(registered_state(owner_id, config))) is None,
        planned_request(None) is None,
{
}

/// The activity buffers a flush applies to.
///
/// A context is named by the address of its CUDA context handle.
#[derive(Debug, Clone, Copy, PartialEq, Eq)]
#[non_exhaustive]
pub enum ActivityFlushTarget {
    /// Every buffer of every context.
    Global,
    /// The buffers of one context.
    Context(usize),
    /// The buffers of one stream of a context.
    Stream { context: usize, stream_id: StreamId },
}

/// The context handle and stream number that `cuptiActivityFlush` takes for a flush
/// target: null and 0 for every buffer, the context and 0 for one context, and the
/// context and stream for one stream, whose identifier must fit in 32 bits.
pub open spec fn flush_arguments(target: ActivityFlushTarget) -> Option<(usize, u32)> {
    match target {
        ActivityFlushTarget::Global => Some((0usize, 0u32)),
        ActivityFlushTarget::Context(context) => Some((context, 0u32)),
        ActivityFlushTarget::Stream { context, stream_id } => if stream_id@ <= u32::MAX {
            Some((context, stream_id@ as u32))
        } else {
            None
        },
    }
}

impl ActivityFlushTarget {
    /// The context handle and stream number to hand `cuptiActivityFlush`, or
    /// `Error::OutOfRange` naming `stream_id` when the stream identifier does not fit
    /// in 32 bits.
    pub fn context_and_stream_id(self) -> (r: Result<(usize, u32)>)
        ensures
            match flush_arguments(self) {
                Some(args) => r == Ok::<(usize, u32), Error>(args),
                None => r matches Err(Error::OutOfRange { name }) && name@ == "stream_id"@,
            },
    {
        match self {
            ActivityFlushTarget::Global => Ok((0, 0)),
            ActivityFlushTarget::Context(context) => Ok((context, 0)),
            ActivityFlushTarget::Stream { context, stream_id } => {
                match to_u32(stream_id.get(), "stream_id") {
                    Ok(id) => Ok((context, id)),
                    Err(e) => Err(e),
                }
            },
        }
    }

    /// The word that names this kind of target: `global`, `context` or `stream`.
    pub fn name(self) -> (r: &'static str)
        ensures
            r == (match self {
                ActivityFlushTarget::Global => "global",
                ActivityFlushTarget::Context(_) => "context",
                ActivityFlushTarget::Stream { .. } => "stream",
            }),
    {
        match self {
            ActivityFlushTarget::Global => "global",
            ActivityFlushTarget::Context(_) => "context",
            ActivityFlushTarget::Stream { .. } => "stream",
        }
    }
}

/// The counter count and structures that `cuptiActivityConfigureUnifiedMemoryCounter`
/// takes for `configs`, or `Error::OutOfRange` naming
/// `unified_memory_counter_config_count` when there are more than `u32::MAX` of them.
pub fn unified_memory_counter_raw_configs(configs: &[ActivityUnifiedMemoryCounterConfig]) -> (r: Result<
    (u32, Vec<RawActivityUnifiedMemoryCounterConfig>),
>)
    ensures
        match r {
            Ok((count, raw)) => {
                &&& configs@.len() <= u32::MAX
                &&& count == configs@.len()
                &&& raw@.len() == configs@.len()
                &&& forall|i: int| 0 <= i < raw@.len() ==> #[trigger] raw@[i] == configs@[i].to_raw_spec()
            },
            Err(e) => configs@.len() > u32::MAX && (e matches Error::OutOfRange { name }
                && name@ == "unified_memory_counter_config_count"@),
        },
{
    let count = match to_u32(configs.len() as u64, "unified_memory_counter_config_count") {
        Ok(count) => count,
        Err(e) => return Err(e),
    };
    let mut raw: Vec<RawActivityUnifiedMemoryCounterConfig> = Vec::new();
    let mut i: usize = 0;
    while i < configs.len()
        invariant
            i <= configs@.len(),
            raw@.len() == i,
            forall|j: int| 0 <= j < i ==> #[trigger] raw@[j] == configs@[j].to_raw_spec(),
        decreases configs.len() - i,
    {
        raw.push(configs[i].to_raw());
        i += 1;
    }
    Ok((count, raw))
}

/// The activity kind of the C value `value`, or `Invalid` for a value the enum does
/// not define.
pub open spec fn activity_kind_of(value: u32) -> ActivityKind {
    if exists|k: ActivityKind| k.raw_value() == value {
        choose|k: ActivityKind| k.raw_value() == value
    } else {
        ActivityKind::Invalid
    }
}

/// The activity kinds enabled for a subscriber, from CUPTI's answer to the second
/// `cuptiActivityGetEnabledKinds` call: the kinds it filled, cut to the count it
/// reported, a value the enum does not define reading as `Invalid`.
pub fn enabled_kinds_from_query(kinds: Vec<u32>, enabled_count: u32) -> (r: Vec<ActivityKind>)
    ensures
        r@.len() == (if enabled_count < kinds@.len() { enabled_count as int } else { kinds@.len() as int }),
        forall|i: int| 0 <= i < r@.len() ==> #[trigger] r@[i] == activity_kind_of(kinds@[i]),
{
    let mut kinds = kinds;
    kinds.truncate(enabled_count as usize);
    let mut out: Vec<ActivityKind> = Vec::new();
    let mut i: usize = 0;
    while i < kinds.len()
        invariant
            i <= kinds@.len(),
            out@.len() == i,
            forall|j: int| 0 <= j < i ==> #[trigger] out@[j] == activity_kind_of(kinds@[j]),
        decreases kinds.len() - i,
    {
        let kind = match ActivityKind::try_from_raw(kinds[i]) {
            Some(k) => k,
            None => ActivityKind::Invalid,
        };
        proof {
            let w = kinds@[i as int];
            if exists|k: ActivityKind| k.raw_value() == w {
                let c = choose|k: ActivityKind| k.raw_value() == w;
                crate::cupti::types::lemma_activity_kind_raw_round_trip(c, kind);
            }
        }
        out.push(kind);
        i += 1;
    }
    out
}

/// A flush of every buffer names no context and stream 0; a flush of a context names
/// that context and stream 0; a flush of a stream names its context and stream, and is
/// refused exactly when the stream identifier does not fit in 32 bits.
pub proof fn lemma_flush_arguments_name_target(context: usize, stream_id: StreamId)
    ensures
        flush_arguments(ActivityFlushTarget::Global) == Some((0usize, 0u32)),
        flush_arguments(ActivityFlushTarget::Context(context)) == Some((context, 0u32)),
        flush_arguments(ActivityFlushTarget::Stream { context, stream_id }) is None <==> stream_id@ > u32::MAX,
        flush_arguments(ActivityFlushTarget::Stream { context, stream_id }) matches Some((c, s)) ==> c == context && s
            == stream_id@,
{
}

} // verus!

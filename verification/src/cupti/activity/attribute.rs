//! Typed access to the activity API attributes.
//!
//! CUPTI reads and writes each attribute as one C object: a `size_t`, a `uint8_t`, or
//! the thread identifier type enum. The functions here decide which object an
//! attribute is stored in, what a typed setting writes, and what a word read back
//! decodes to; the read or write itself is one CUPTI call on that object.
use vstd::prelude::*;
use crate::cupti::error::{Error, Result};
use crate::cupti::types::{
    ActivityAttribute,
    ActivityAttributeSetting,
    ActivityAttributeValue,
    ActivityThreadIdType,
    MultipleSubscriberState,
    subscriber_state_of,
};

verus! {

/// The C object in which CUPTI stores an attribute, with its value.
#[derive(Debug, Clone, Copy, PartialEq, Eq, Hash, Structural)]
pub enum ActivityAttributeWord {
    /// A `size_t`.
    Size(usize),
    /// A `uint8_t`.
    Byte(u8),
    /// A `CUpti_ActivityThreadIdType`, a 32-bit C enum.
    ThreadIdType(ActivityThreadIdType),
}

/// The C type in which CUPTI stores an attribute.
#[derive(Debug, Clone, Copy, PartialEq, Eq, Hash, Structural)]
pub enum ActivityAttributeStorage {
    /// A `size_t`.
    Size,
    /// A `uint8_t`.
    Byte,
    /// A `CUpti_ActivityThreadIdType`.
    ThreadIdType,
}

impl ActivityAttributeWord {
    /// The C type of the word.
    pub open spec fn storage(self) -> ActivityAttributeStorage {
        match self {
            ActivityAttributeWord::Size(_) => ActivityAttributeStorage::Size,
            ActivityAttributeWord::Byte(_) => ActivityAttributeStorage::Byte,
            ActivityAttributeWord::ThreadIdType(_) => ActivityAttributeStorage::ThreadIdType,
        }
    }

    /// Size in bytes of the word's C type.
    pub open spec fn byte_size(self) -> nat {
        match self {
            ActivityAttributeWord::Size(_) => vstd::layout::size_of::<usize>(),
            ActivityAttributeWord::Byte(_) => 1,
            ActivityAttributeWord::ThreadIdType(_) => 4,
        }
    }

    /// Returns the size in bytes to pass to CUPTI with the word.
    pub fn value_size(&self) -> (r: u64)
        ensures
            r == self.byte_size(),
    {
        match self {
            ActivityAttributeWord::Size(_) => {
                proof {
                    broadcast use vstd::layout::layout_of_primitives;
                }
                core::mem::size_of::<usize>() as u64
            },
            ActivityAttributeWord::Byte(_) => 1,
            ActivityAttributeWord::ThreadIdType(_) => 4,
        }
    }
}

/// Attributes holding a size in bytes.
pub open spec fn is_size_attribute(attr: ActivityAttribute) -> bool {
    ||| attr == ActivityAttribute::DeviceBufferSize
    ||| attr == ActivityAttribute::DeviceBufferSizeCudaDynamicParallelism
    ||| attr == ActivityAttribute::ProfilingSemaphorePoolSize
    ||| attr == ActivityAttribute::DeviceBufferSizeDeviceGraphs
}

/// Attributes holding a count of buffers or semaphores.
pub open spec fn is_count_attribute(attr: ActivityAttribute) -> bool {
    ||| attr == ActivityAttribute::DeviceBufferPoolLimit
    ||| attr == ActivityAttribute::ProfilingSemaphorePoolLimit
    ||| attr == ActivityAttribute::DeviceBufferPreAllocateValue
    ||| attr == ActivityAttribute::ProfilingSemaphorePreAllocateValue
}

/// Attributes holding an on/off switch.
pub open spec fn is_switch_attribute(attr: ActivityAttribute) -> bool {
    ||| attr == ActivityAttribute::ZeroedOutActivityBuffer
    ||| attr == ActivityAttribute::MemAllocationTypeHostPinned
    ||| attr == ActivityAttribute::PerThreadActivityBuffer
    ||| attr == ActivityAttribute::UserDefinedRecords
    ||| attr == ActivityAttribute::EnableHes
    ||| attr == ActivityAttribute::EnableAllocationSourceTracking
    ||| attr == ActivityAttribute::EnableKernelLatencyTimestamps
    ||| attr == ActivityAttribute::EnableAllSyncRecords
    ||| attr == ActivityAttribute::EnableCudaEventDeviceTimestamps
    ||| attr == ActivityAttribute::EnableKernelLaunchAttributes
    ||| attr == ActivityAttribute::EnableDeviceGraphTrace
    ||| attr == ActivityAttribute::EnableMultiSubscriberGraphLevelTrace
    ||| attr == ActivityAttribute::CigMode
}

/// The C type an attribute is stored in, or `None` for an attribute that cannot be
/// read or written as a value.
pub open spec fn attribute_storage_of(attr: ActivityAttribute) -> Option<ActivityAttributeStorage> {
    if is_size_attribute(attr) || is_count_attribute(attr) {
        Some(ActivityAttributeStorage::Size)
    } else if is_switch_attribute(attr) || attr == ActivityAttribute::MultipleSubscriberState {
        Some(ActivityAttributeStorage::Byte)
    } else if attr == ActivityAttribute::ThreadIdType {
        Some(ActivityAttributeStorage::ThreadIdType)
    } else {
        None
    }
}

/// The word a setting writes to an attribute, or `None` when the setting is not of
/// the attribute's kind or the attribute cannot be written.
pub open spec fn setting_word(attr: ActivityAttribute, value: ActivityAttributeSetting) -> Option<ActivityAttributeWord> {
    match value {
        ActivityAttributeSetting::Bytes(v) => if is_size_attribute(attr) {
            Some(ActivityAttributeWord::Size(v))
        } else {
            None
        },
        ActivityAttributeSetting::Count(v) => if is_count_attribute(attr) {
            Some(ActivityAttributeWord::Size(v))
        } else {
            None
        },
        ActivityAttributeSetting::Enabled(b) => if is_switch_attribute(attr) {
            Some(ActivityAttributeWord::Byte(if b { 1u8 } else { 0u8 }))
        } else {
            None
        },
        ActivityAttributeSetting::ThreadIdType(t) => if attr == ActivityAttribute::ThreadIdType {
            Some(ActivityAttributeWord::ThreadIdType(t))
        } else {
            None
        },
    }
}

/// The value a word read from an attribute decodes to, or `None` when the word is not
/// of the attribute's type or the attribute cannot be read.
pub open spec fn word_value(attr: ActivityAttribute, word: ActivityAttributeWord) -> Option<ActivityAttributeValue> {
    match word {
        ActivityAttributeWord::Size(v) => if is_size_attribute(attr) {
            Some(ActivityAttributeValue::Bytes(v))
        } else if is_count_attribute(attr) {
            Some(ActivityAttributeValue::Count(v))
        } else {
            None
        },
        ActivityAttributeWord::Byte(b) => if is_switch_attribute(attr) {
            Some(ActivityAttributeValue::Enabled(b != 0))
        } else if attr == ActivityAttribute::MultipleSubscriberState {
            Some(ActivityAttributeValue::MultipleSubscriberState(subscriber_state_of(b)))
        } else {
            None
        },
        ActivityAttributeWord::ThreadIdType(t) => if attr == ActivityAttribute::ThreadIdType {
            Some(ActivityAttributeValue::ThreadIdType(t))
        } else {
            None
        },
    }
}

/// The value a setting denotes once read back.
pub open spec fn setting_value(value: ActivityAttributeSetting) -> ActivityAttributeValue {
    match value {
        ActivityAttributeSetting::Bytes(v) => ActivityAttributeValue::Bytes(v),
        ActivityAttributeSetting::Count(v) => ActivityAttributeValue::Count(v),
        ActivityAttributeSetting::Enabled(b) => ActivityAttributeValue::Enabled(b),
        ActivityAttributeSetting::ThreadIdType(t) => ActivityAttributeValue::ThreadIdType(t),
    }
}

/// Whether `e` is the error naming `attr` as an attribute that cannot be used this way.
pub open spec fn is_invalid_attribute_error(e: Error, attr: ActivityAttribute) -> bool {
    e matches Error::InvalidAttribute { name } && name@ == attr.variant_name()@
}

fn invalid_attribute(attr: ActivityAttribute) -> (e: Error)
    ensures
        is_invalid_attribute_error(e, attr),
{
    Error::InvalidAttribute { name: attr.name().to_owned() }
}

fn is_size(attr: ActivityAttribute) -> (r: bool)
    ensures
        r == is_size_attribute(attr),
{
    matches!(
        attr,
        ActivityAttribute::DeviceBufferSize | ActivityAttribute::DeviceBufferSizeCudaDynamicParallelism
            | ActivityAttribute::ProfilingSemaphorePoolSize | ActivityAttribute::DeviceBufferSizeDeviceGraphs
    )
}

fn is_count(attr: ActivityAttribute) -> (r: bool)
    ensures
        r == is_count_attribute(attr),
{
    matches!(
        attr,
        ActivityAttribute::DeviceBufferPoolLimit | ActivityAttribute::ProfilingSemaphorePoolLimit
            | ActivityAttribute::DeviceBufferPreAllocateValue
            | ActivityAttribute::ProfilingSemaphorePreAllocateValue
    )
}

fn is_switch(attr: ActivityAttribute) -> (r: bool)
    ensures
        r == is_switch_attribute(attr),
{
    matches!(
        attr,
        ActivityAttribute::ZeroedOutActivityBuffer | ActivityAttribute::MemAllocationTypeHostPinned
            | ActivityAttribute::PerThreadActivityBuffer | ActivityAttribute::UserDefinedRecords
            | ActivityAttribute::EnableHes | ActivityAttribute::EnableAllocationSourceTracking
            | ActivityAttribute::EnableKernelLatencyTimestamps | ActivityAttribute::EnableAllSyncRecords
            | ActivityAttribute::EnableCudaEventDeviceTimestamps
            | ActivityAttribute::EnableKernelLaunchAttributes | ActivityAttribute::EnableDeviceGraphTrace
            | ActivityAttribute::EnableMultiSubscriberGraphLevelTrace | ActivityAttribute::CigMode
    )
}

/// Returns the C type in which an attribute is read, or `Error::InvalidAttribute`
/// naming the attribute when it cannot be read as a value (`TimestampCallback`,
/// `DeviceBufferForceInt`).
pub fn attribute_storage(attr: ActivityAttribute) -> (r: Result<ActivityAttributeStorage>)
    ensures
        match attribute_storage_of(attr) {
            Some(s) => r matches Ok(s2) && s2 == s,
            None => r matches Err(e) && is_invalid_attribute_error(e, attr),
        },
{
    if is_size(attr) || is_count(attr) {
        Ok(ActivityAttributeStorage::Size)
    } else if is_switch(attr) || attr == ActivityAttribute::MultipleSubscriberState {
        Ok(ActivityAttributeStorage::Byte)
    } else if attr == ActivityAttribute::ThreadIdType {
        Ok(ActivityAttributeStorage::ThreadIdType)
    } else {
        Err(invalid_attribute(attr))
    }
}

/// Returns the word that writing `value` to `attr` hands to CUPTI: a `size_t` for the
/// size and count attributes, a `uint8_t` 1 or 0 for the switches, the thread
/// identifier type for `ThreadIdType`. A setting of another kind than the attribute's,
/// or an attribute that cannot be written, is refused with `Error::InvalidAttribute`
/// naming the attribute, before anything is written.
pub fn attribute_setting_word(
    attr: ActivityAttribute,
    value: ActivityAttributeSetting,
) -> (r: Result<ActivityAttributeWord>)
    ensures
        match setting_word(attr, value) {
            Some(w) => r matches Ok(w2) && w2 == w,
            None => r matches Err(e) && is_invalid_attribute_error(e, attr),
        },
{
    match value {
        ActivityAttributeSetting::Bytes(v) => {
            if is_size(attr) {
                return Ok(ActivityAttributeWord::Size(v));
            }
        },
        ActivityAttributeSetting::Count(v) => {
            if is_count(attr) {
                return Ok(ActivityAttributeWord::Size(v));
            }
        },
        ActivityAttributeSetting::Enabled(b) => {
            if is_switch(attr) {
                return Ok(ActivityAttributeWord::Byte(if b { 1u8 } else { 0u8 }));
            }
        },
        ActivityAttributeSetting::ThreadIdType(t) => {
            if attr == ActivityAttribute::ThreadIdType {
                return Ok(ActivityAttributeWord::ThreadIdType(t));
            }
        },
    }
    Err(invalid_attribute(attr))
}

/// Decodes the word read from `attr`: a size in bytes or a count for the `size_t`
/// attributes, a switch that is on when the byte is nonzero, the multiple-subscriber
/// state of the byte, or the thread identifier type. A word of another type than the
/// attribute's, or an attribute that cannot be read, gives `Error::InvalidAttribute`.
pub fn attribute_value_from_word(
    attr: ActivityAttribute,
    word: ActivityAttributeWord,
) -> (r: Result<ActivityAttributeValue>)
    ensures
        match word_value(attr, word) {
            Some(v) => r matches Ok(v2) && v2 == v,
            None => r matches Err(e) && is_invalid_attribute_error(e, attr),
        },
{
    match word {
        ActivityAttributeWord::Size(v) => {
            if is_size(attr) {
                return Ok(ActivityAttributeValue::Bytes(v));
            } else if is_count(attr) {
                return Ok(ActivityAttributeValue::Count(v));
            }
        },
        ActivityAttributeWord::Byte(b) => {
            if is_switch(attr) {
                return Ok(ActivityAttributeValue::Enabled(b != 0));
            } else if attr == ActivityAttribute::MultipleSubscriberState {
                return Ok(ActivityAttributeValue::MultipleSubscriberState(MultipleSubscriberState::from(b)));
            }
        },
        ActivityAttributeWord::ThreadIdType(t) => {
            if attr == ActivityAttribute::ThreadIdType {
                return Ok(ActivityAttributeValue::ThreadIdType(t));
            }
        },
    }
    Err(invalid_attribute(attr))
}

/// Reading an attribute back gives the value that was written to it: the word a
/// setting writes decodes, for the same attribute, to the value of the setting.
pub proof fn lemma_read_gives_back_write(attr: ActivityAttribute, value: ActivityAttributeSetting)
    ensures
        setting_word(attr, value) matches Some(w) ==> word_value(attr, w) == Some(setting_value(value)),
{
}

/// A setting is written in the C type in which the attribute is stored.
pub proof fn lemma_setting_word_has_attribute_storage(attr: ActivityAttribute, value: ActivityAttributeSetting)
    ensures
        setting_word(attr, value) matches Some(w) ==> attribute_storage_of(attr) == Some(w.storage()),
{
}

/// Every attribute that a word can be decoded for has a storage type, and the words
/// it decodes are exactly the words of that type.
pub proof fn lemma_word_value_matches_storage(attr: ActivityAttribute, word: ActivityAttributeWord)
    ensures
        word_value(attr, word) is Some <==> attribute_storage_of(attr) == Some(word.storage()),
{
}

/// What each activity attribute holds and how CUPTI stores it: buffer and semaphore
/// sizes and counts in a `size_t`, switches and the multiple-subscriber state in a
/// `uint8_t`, the thread identifier type in its C enum, and nothing for the other
/// attributes.
pub proof fn lemma_attribute_kinds_and_storage()
    ensures
        attribute_storage_of(ActivityAttribute::DeviceBufferSize) == Some(ActivityAttributeStorage::Size),
        attribute_storage_of(ActivityAttribute::DeviceBufferSizeCudaDynamicParallelism) == Some(ActivityAttributeStorage::Size),
        attribute_storage_of(ActivityAttribute::DeviceBufferPoolLimit) == Some(ActivityAttributeStorage::Size),
        attribute_storage_of(ActivityAttribute::ProfilingSemaphorePoolSize) == Some(ActivityAttributeStorage::Size),
        attribute_storage_of(ActivityAttribute::ProfilingSemaphorePoolLimit) == Some(ActivityAttributeStorage::Size),
        attribute_storage_of(ActivityAttribute::ZeroedOutActivityBuffer) == Some(ActivityAttributeStorage::Byte),
        attribute_storage_of(ActivityAttribute::DeviceBufferPreAllocateValue) == Some(ActivityAttributeStorage::Size),
        attribute_storage_of(ActivityAttribute::ProfilingSemaphorePreAllocateValue) == Some(ActivityAttributeStorage::Size),
        attribute_storage_of(ActivityAttribute::MemAllocationTypeHostPinned) == Some(ActivityAttributeStorage::Byte),
        attribute_storage_of(ActivityAttribute::PerThreadActivityBuffer) == Some(ActivityAttributeStorage::Byte),
        attribute_storage_of(ActivityAttribute::DeviceBufferSizeDeviceGraphs) == Some(ActivityAttributeStorage::Size),
        attribute_storage_of(ActivityAttribute::UserDefinedRecords) == Some(ActivityAttributeStorage::Byte),
        attribute_storage_of(ActivityAttribute::MultipleSubscriberState) == Some(ActivityAttributeStorage::Byte),
        attribute_storage_of(ActivityAttribute::EnableHes) == Some(ActivityAttributeStorage::Byte),
        attribute_storage_of(ActivityAttribute::EnableAllocationSourceTracking) == Some(ActivityAttributeStorage::Byte),
        attribute_storage_of(ActivityAttribute::EnableKernelLatencyTimestamps) == Some(ActivityAttributeStorage::Byte),
        attribute_storage_of(ActivityAttribute::EnableAllSyncRecords) == Some(ActivityAttributeStorage::Byte),
        attribute_storage_of(ActivityAttribute::EnableCudaEventDeviceTimestamps) == Some(ActivityAttributeStorage::Byte),
        attribute_storage_of(ActivityAttribute::EnableKernelLaunchAttributes) == Some(ActivityAttributeStorage::Byte),
        attribute_storage_of(ActivityAttribute::EnableDeviceGraphTrace) == Some(ActivityAttributeStorage::Byte),
        attribute_storage_of(ActivityAttribute::EnableMultiSubscriberGraphLevelTrace) == Some(ActivityAttributeStorage::Byte),
        attribute_storage_of(ActivityAttribute::ThreadIdType) == Some(ActivityAttributeStorage::ThreadIdType),
        attribute_storage_of(ActivityAttribute::TimestampCallback) == None::<ActivityAttributeStorage>,
        attribute_storage_of(ActivityAttribute::CigMode) == Some(ActivityAttributeStorage::Byte),
        attribute_storage_of(ActivityAttribute::DeviceBufferForceInt) == None::<ActivityAttributeStorage>,
        is_size_attribute(ActivityAttribute::DeviceBufferSize) == true,
        is_count_attribute(ActivityAttribute::DeviceBufferSize) == false,
        is_switch_attribute(ActivityAttribute::DeviceBufferSize) == false,
        is_size_attribute(ActivityAttribute::DeviceBufferSizeCudaDynamicParallelism) == true,
        is_count_attribute(ActivityAttribute::DeviceBufferSizeCudaDynamicParallelism) == false,
        is_switch_attribute(ActivityAttribute::DeviceBufferSizeCudaDynamicParallelism) == false,
        is_size_attribute(ActivityAttribute::DeviceBufferPoolLimit) == false,
        is_count_attribute(ActivityAttribute::DeviceBufferPoolLimit) == true,
        is_switch_attribute(ActivityAttribute::DeviceBufferPoolLimit) == false,
        is_size_attribute(ActivityAttribute::ProfilingSemaphorePoolSize) == true,
        is_count_attribute(ActivityAttribute::ProfilingSemaphorePoolSize) == false,
        is_switch_attribute(ActivityAttribute::ProfilingSemaphorePoolSize) == false,
        is_size_attribute(ActivityAttribute::ProfilingSemaphorePoolLimit) == false,
        is_count_attribute(ActivityAttribute::ProfilingSemaphorePoolLimit) == true,
        is_switch_attribute(ActivityAttribute::ProfilingSemaphorePoolLimit) == false,
        is_size_attribute(ActivityAttribute::ZeroedOutActivityBuffer) == false,
        is_count_attribute(ActivityAttribute::ZeroedOutActivityBuffer) == false,
        is_switch_attribute(ActivityAttribute::ZeroedOutActivityBuffer) == true,
        is_size_attribute(ActivityAttribute::DeviceBufferPreAllocateValue) == false,
        is_count_attribute(ActivityAttribute::DeviceBufferPreAllocateValue) == true,
        is_switch_attribute(ActivityAttribute::DeviceBufferPreAllocateValue) == false,
        is_size_attribute(ActivityAttribute::ProfilingSemaphorePreAllocateValue) == false,
        is_count_attribute(ActivityAttribute::ProfilingSemaphorePreAllocateValue) == true,
        is_switch_attribute(ActivityAttribute::ProfilingSemaphorePreAllocateValue) == false,
        is_size_attribute(ActivityAttribute::MemAllocationTypeHostPinned) == false,
        is_count_attribute(ActivityAttribute::MemAllocationTypeHostPinned) == false,
        is_switch_attribute(ActivityAttribute::MemAllocationTypeHostPinned) == true,
        is_size_attribute(ActivityAttribute::PerThreadActivityBuffer) == false,
        is_count_attribute(ActivityAttribute::PerThreadActivityBuffer) == false,
        is_switch_attribute(ActivityAttribute::PerThreadActivityBuffer) == true,
        is_size_attribute(ActivityAttribute::DeviceBufferSizeDeviceGraphs) == true,
        is_count_attribute(ActivityAttribute::DeviceBufferSizeDeviceGraphs) == false,
        is_switch_attribute(ActivityAttribute::DeviceBufferSizeDeviceGraphs) == false,
        is_size_attribute(ActivityAttribute::UserDefinedRecords) == false,
        is_count_attribute(ActivityAttribute::UserDefinedRecords) == false,
        is_switch_attribute(ActivityAttribute::UserDefinedRecords) == true,
        is_size_attribute(ActivityAttribute::MultipleSubscriberState) == false,
        is_count_attribute(ActivityAttribute::MultipleSubscriberState) == false,
        is_switch_attribute(ActivityAttribute::MultipleSubscriberState) == false,
        is_size_attribute(ActivityAttribute::EnableHes) == false,
        is_count_attribute(ActivityAttribute::EnableHes) == false,
        is_switch_attribute(ActivityAttribute::EnableHes) == true,
        is_size_attribute(ActivityAttribute::EnableAllocationSourceTracking) == false,
        is_count_attribute(ActivityAttribute::EnableAllocationSourceTracking) == false,
        is_switch_attribute(ActivityAttribute::EnableAllocationSourceTracking) == true,
        is_size_attribute(ActivityAttribute::EnableKernelLatencyTimestamps) == false,
        is_count_attribute(ActivityAttribute::EnableKernelLatencyTimestamps) == false,
        is_switch_attribute(ActivityAttribute::EnableKernelLatencyTimestamps) == true,
        is_size_attribute(ActivityAttribute::EnableAllSyncRecords) == false,
        is_count_attribute(ActivityAttribute::EnableAllSyncRecords) == false,
        is_switch_attribute(ActivityAttribute::EnableAllSyncRecords) == true,
        is_size_attribute(ActivityAttribute::EnableCudaEventDeviceTimestamps) == false,
        is_count_attribute(ActivityAttribute::EnableCudaEventDeviceTimestamps) == false,
        is_switch_attribute(ActivityAttribute::EnableCudaEventDeviceTimestamps) == true,
        is_size_attribute(ActivityAttribute::EnableKernelLaunchAttributes) == false,
        is_count_attribute(ActivityAttribute::EnableKernelLaunchAttributes) == false,
        is_switch_attribute(ActivityAttribute::EnableKernelLaunchAttributes) == true,
        is_size_attribute(ActivityAttribute::EnableDeviceGraphTrace) == false,
        is_count_attribute(ActivityAttribute::EnableDeviceGraphTrace) == false,
        is_switch_attribute(ActivityAttribute::EnableDeviceGraphTrace) == true,
        is_size_attribute(ActivityAttribute::EnableMultiSubscriberGraphLevelTrace) == false,
        is_count_attribute(ActivityAttribute::EnableMultiSubscriberGraphLevelTrace) == false,
        is_switch_attribute(ActivityAttribute::EnableMultiSubscriberGraphLevelTrace) == true,
        is_size_attribute(ActivityAttribute::ThreadIdType) == false,
        is_count_attribute(ActivityAttribute::ThreadIdType) == false,
        is_switch_attribute(ActivityAttribute::ThreadIdType) == false,
        is_size_attribute(ActivityAttribute::TimestampCallback) == false,
        is_count_attribute(ActivityAttribute::TimestampCallback) == false,
        is_switch_attribute(ActivityAttribute::TimestampCallback) == false,
        is_size_attribute(ActivityAttribute::CigMode) == false,
        is_count_attribute(ActivityAttribute::CigMode) == false,
        is_switch_attribute(ActivityAttribute::CigMode) == true,
        is_size_attribute(ActivityAttribute::DeviceBufferForceInt) == false,
        is_count_attribute(ActivityAttribute::DeviceBufferForceInt) == false,
        is_switch_attribute(ActivityAttribute::DeviceBufferForceInt) == false,
{
}

} // verus!

//! The guest side of the boundary: the shared-buffer registry and the three
//! operations a plugin exports across it.
//!
//! The registry owns every buffer whose address has been handed out and
//! keeps it alive until the corresponding `free_shared_buffer` call.  It is
//! modeled as a sequence of address-buffer pairs with pairwise distinct,
//! never reused addresses.

use crate::layout::{encode_result, result_layout};
use crate::rainbow::{already_colored_message, has_ansi_escape, rainbow_rendering, rainbow_text};
use crate::text::bytes_to_string;
use vstd::prelude::*;
use vstd::utf8::{decode_utf8, encode_utf8, valid_utf8};

verus! {

/// True when some entry carries this address.
pub open spec fn contains_address(entries: Seq<(u32, Seq<u8>)>, address: u32) -> bool {
    exists|i: int| 0 <= i < entries.len() && entries[i].0 == address
}

/// The position of the entry with this address.
pub open spec fn address_index(entries: Seq<(u32, Seq<u8>)>, address: u32) -> int {
    choose|i: int| 0 <= i < entries.len() && entries[i].0 == address
}

/// The bytes stored under this address.
pub open spec fn buffer_at(entries: Seq<(u32, Seq<u8>)>, address: u32) -> Seq<u8> {
    entries[address_index(entries, address)].1
}

/// No two entries share an address.
pub open spec fn addresses_unique(entries: Seq<(u32, Seq<u8>)>) -> bool {
    forall|i: int, j: int| 0 <= i < j < entries.len() ==> entries[i].0 != entries[j].0
}

/// With distinct addresses, the entry found at a position is the entry of
/// its address.
pub proof fn lemma_address_index_unique(entries: Seq<(u32, Seq<u8>)>, i: int)
    requires
        addresses_unique(entries),
        0 <= i < entries.len(),
    ensures
        address_index(entries, entries[i].0) == i,
{
    let a = entries[i].0;
    assert(contains_address(entries, a));
    let j = address_index(entries, a);
    if j < i {
        assert(entries[j].0 != entries[i].0);
    } else if i < j {
        assert(entries[i].0 != entries[j].0);
    }
}

/// The registry of shared buffers: address-keyed, with a bump allocator for
/// fresh addresses.
pub struct BufferRegistry {
    entries: Vec<(u32, Vec<u8>)>,
    next_address: u32,
}

impl View for BufferRegistry {
    type V = Seq<(u32, Seq<u8>)>;

    closed spec fn view(&self) -> Seq<(u32, Seq<u8>)> {
        Seq::new(self.entries@.len(), |i: int| (self.entries@[i].0, self.entries@[i].1@))
    }
}

impl BufferRegistry {
    /// The next address the registry would hand out.
    pub closed spec fn next_addr(self) -> u32 {
        self.next_address
    }

    /// Every live address lies below the bump pointer and no address
    /// repeats.
    pub closed spec fn wf(self) -> bool {
        &&& 1 <= self.next_address
        &&& forall|i: int| 0 <= i < self@.len() ==> 1 <= (#[trigger] self@[i]).0 < self.next_address
        &&& addresses_unique(self@)
    }

    /// True when the registry still has address space for a buffer of this
    /// length.
    pub open spec fn can_accept(self, len: nat) -> bool {
        self.next_addr() + len + 1 <= u32::MAX
    }

    /// An empty registry.
    pub fn new() -> (r: BufferRegistry)
        ensures
            r.wf(),
            r@ =~= Seq::<(u32, Seq<u8>)>::empty(),
            r.next_addr() == 1,
    {
        BufferRegistry { entries: Vec::new(), next_address: 1 }
    }

    /// How many buffers are live right now.
    pub fn live_count(&self) -> (n: usize)
        ensures
            n == self@.len(),
    {
        self.entries.len()
    }

    /// The entry position of an address, when the address is live.
    fn find_index(&self, address: u32) -> (r: Option<usize>)
        ensures
            r is Some <==> contains_address(self@, address),
            r matches Some(i) ==> i < self@.len() && self@[i as int].0 == address,
    {
        let mut i: usize = 0;
        while i < self.entries.len()
            invariant
                i <= self@.len(),
                self@.len() == self.entries@.len(),
                forall|k: int| 0 <= k < i ==> self@[k].0 != address,
            decreases self@.len() - i,
        {
            if self.entries[i].0 == address {
                proof {
                    assert(self@[i as int].0 == address);
                    assert(contains_address(self@, address));
                }
                return Some(i);
            }
            i += 1;
        }
        None
    }
}

/// A well-formed registry has pairwise distinct addresses.
pub proof fn lemma_wf_unique(r: &BufferRegistry)
    requires
        r.wf(),
    ensures
        addresses_unique(r@),
{
}

/// Duplicate a byte buffer.
pub fn copy_bytes(data: &Vec<u8>) -> (r: Vec<u8>)
    ensures
        r@ == data@,
{
    let mut out: Vec<u8> = Vec::new();
    let mut i: usize = 0;
    while i < data.len()
        invariant
            i <= data@.len(),
            out@ =~= data@.subrange(0, i as int),
        decreases data@.len() - i,
    {
        out.push(data[i]);
        i += 1;
    }
    proof {
        assert(out@ =~= data@);
    }
    out
}

/// Make a buffer available to the host: store it under a fresh address and
/// return that address.
pub fn share_buffer(registry: &mut BufferRegistry, buffer: Vec<u8>) -> (address: u32)
    requires
        old(registry).wf(),
        old(registry).can_accept(buffer@.len()),
    ensures
        final(registry).wf(),
        address == old(registry).next_addr(),
        !contains_address(old(registry)@, address),
        final(registry)@ == old(registry)@.push((address, buffer@)),
        final(registry).next_addr() == old(registry).next_addr() + buffer@.len() + 1,
{
    let address = registry.next_address;
    proof {
        assert forall|i: int| 0 <= i < registry@.len() implies (#[trigger] registry@[i]).0
            != address by {}
    }
    registry.next_address = address + buffer.len() as u32 + 1;
    registry.entries.push((address, buffer));
    proof {
        assert(final(registry)@ =~= old(registry)@.push((address, buffer@)));
    }
    address
}

/// Allocate a zero-filled shared buffer of `size` bytes and return its
/// address.  The buffer stays live until `free_shared_buffer`.
pub fn allocate_shared_buffer(registry: &mut BufferRegistry, size: u32) -> (address: u32)
    requires
        old(registry).wf(),
        old(registry).can_accept(size as nat),
    ensures
        final(registry).wf(),
        address == old(registry).next_addr(),
        !contains_address(old(registry)@, address),
        final(registry)@ == old(registry)@.push((address, Seq::new(size as nat, |i: int| 0u8))),
        final(registry).next_addr() == old(registry).next_addr() + size + 1,
{
    let buffer: Vec<u8> = vec![0u8; size as usize];
    proof {
        assert(buffer@ =~= Seq::new(size as nat, |i: int| 0u8));
    }
    share_buffer(registry, buffer)
}

/// Drop the registry entry for this address, if it is live.  Returns whether
/// an entry was removed.
pub fn free_shared_buffer(registry: &mut BufferRegistry, address: u32) -> (freed: bool)
    requires
        old(registry).wf(),
    ensures
        final(registry).wf(),
        freed == contains_address(old(registry)@, address),
        freed ==> final(registry)@ == old(registry)@.remove(
            address_index(old(registry)@, address),
        ),
        !freed ==> final(registry)@ == old(registry)@,
        final(registry).next_addr() == old(registry).next_addr(),
{
    match registry.find_index(address) {
        None => false,
        Some(i) => {
            proof {
                lemma_address_index_unique(registry@, i as int);
            }
            registry.entries.remove(i);
            proof {
                let before = old(registry)@;
                let after = final(registry)@;
                assert(after =~= before.remove(i as int));
                assert forall|p: int, q: int| 0 <= p < q < after.len() implies after[p].0
                    != after[q].0 by {
                    let old_p = if p < i as int {
                        p
                    } else {
                        p + 1
                    };
                    let old_q = if q < i as int {
                        q
                    } else {
                        q + 1
                    };
                    assert(before[old_p].0 != before[old_q].0);
                }
            }
            true
        },
    }
}

/// Overwrite the buffer at this address with bytes of the same length: the
/// host's write of the marshalled input into the allocated region.  Returns
/// whether the address was live and the lengths matched.
pub fn write_buffer(registry: &mut BufferRegistry, address: u32, data: &Vec<u8>) -> (ok: bool)
    requires
        old(registry).wf(),
    ensures
        final(registry).wf(),
        final(registry).next_addr() == old(registry).next_addr(),
        ok == (contains_address(old(registry)@, address) && data@.len() == buffer_at(
            old(registry)@,
            address,
        ).len()),
        ok ==> final(registry)@ == old(registry)@.update(
            address_index(old(registry)@, address),
            (address, data@),
        ),
        !ok ==> final(registry)@ == old(registry)@,
{
    match registry.find_index(address) {
        None => false,
        Some(i) => {
            proof {
                lemma_address_index_unique(registry@, i as int);
            }
            if registry.entries[i].1.len() != data.len() {
                return false;
            }
            let fresh = copy_bytes(data);
            registry.entries.remove(i);
            registry.entries.insert(i, (address, fresh));
            proof {
                let before = old(registry)@;
                let after = final(registry)@;
                assert(after =~= before.update(i as int, (address, data@)));
                assert forall|p: int| 0 <= p < after.len() implies 1 <= (#[trigger] after[p]).0
                    < final(registry).next_addr() by {
                    assert(before[p].0 == after[p].0);
                }
                assert forall|p: int, q: int| 0 <= p < q < after.len() implies after[p].0
                    != after[q].0 by {
                    assert(before[p].0 == after[p].0);
                    assert(before[q].0 == after[q].0);
                }
            }
            true
        },
    }
}

/// The message returned when `process` is handed an address with no live
/// buffer.
pub open spec fn missing_buffer_message() -> Seq<char> {
    "The input buffer does not exist. Use `allocate_shared_buffer` to allocate a buffer."@
}

/// The reply the guest gives for an input address: a success flag and the
/// text that goes into the result buffer.  When the buffer is live but not
/// valid UTF-8 the reply text is the failure's rendering, about which
/// nothing is stated here.
pub open spec fn guest_reply(entries: Seq<(u32, Seq<u8>)>, address: u32) -> (bool, Seq<char>) {
    if !contains_address(entries, address) {
        (false, missing_buffer_message())
    } else if !valid_utf8(buffer_at(entries, address)) {
        (false, Seq::empty())
    } else {
        let text = decode_utf8(buffer_at(entries, address));
        if has_ansi_escape(text) {
            (false, already_colored_message())
        } else {
            (true, rainbow_rendering(text))
        }
    }
}

/// The shape of one processing outcome: the flag, and the address and byte
/// length of the text it points at.  This mirrors the wire layout that
/// `process` writes into the result buffer.
pub struct ProcessingResult {
    /// Whether the operation succeeded; if not, the text is an error
    /// message.
    pub success: bool,
    /// Address of the result or error message.
    pub pointer: u64,
    /// Length of the result or error message in bytes.
    pub length: u64,
}

/// Decode the input buffer and transform it, with the failure rendered as a
/// plain string.
pub fn process_to_result(registry: &BufferRegistry, input_buffer: u32) -> (r: Result<
    String,
    String,
>)
    requires
        registry.wf(),
    ensures
        !contains_address(registry@, input_buffer) ==> (r matches Err(m) && m@
            == missing_buffer_message()),
        contains_address(registry@, input_buffer) && !valid_utf8(
            buffer_at(registry@, input_buffer),
        ) ==> r is Err,
        contains_address(registry@, input_buffer) && valid_utf8(
            buffer_at(registry@, input_buffer),
        ) ==> {
            let text = decode_utf8(buffer_at(registry@, input_buffer));
            &&& !has_ansi_escape(text) ==> (r matches Ok(s) && s@ == rainbow_rendering(text))
            &&& has_ansi_escape(text) ==> (r matches Err(m) && m@ == already_colored_message())
        },
{
    let input = match lookup_buffer(registry, input_buffer) {
        None => {
            return Err(
                String::from_str(
                    "The input buffer does not exist. Use `allocate_shared_buffer` to allocate a buffer.",
                ),
            );
        },
        Some(buffer) => copy_bytes(buffer),
    };
    let input = match bytes_to_string(input) {
        Err(e) => {
            return Err(e);
        },
        Ok(s) => s,
    };
    rainbow_text(input.as_str())
}

/// Transform the input buffer and return the address of a fresh result
/// buffer holding the encoded reply.  The caller frees it with
/// `free_shared_buffer`.  The boundary's contract makes the input buffer
/// raw UTF-8 text, and the registry must have address space for the reply.
pub fn process(registry: &mut BufferRegistry, input_buffer: u32) -> (address: u32)
    requires
        old(registry).wf(),
        contains_address(old(registry)@, input_buffer) ==> valid_utf8(
            buffer_at(old(registry)@, input_buffer),
        ),
        old(registry).can_accept(
            5 + encode_utf8(guest_reply(old(registry)@, input_buffer).1).len(),
        ),
    ensures
        final(registry).wf(),
        address == old(registry).next_addr(),
        !contains_address(old(registry)@, address),
        final(registry)@ == old(registry)@.push(
            (
                address,
                result_layout(
                    guest_reply(old(registry)@, input_buffer).0,
                    encode_utf8(guest_reply(old(registry)@, input_buffer).1),
                ),
            ),
        ),
{
    let (success, output): (bool, String) = match process_to_result(registry, input_buffer) {
        Ok(out) => (true, out),
        Err(error) => (false, error),
    };
    proof {
        assert(success == guest_reply(registry@, input_buffer).0);
        assert(output@ == guest_reply(registry@, input_buffer).1);
    }
    let payload = output.as_str().as_bytes_vec();
    let encoded = encode_result(success, &payload);
    proof {
        vstd::bytes::lemma_auto_spec_u32_to_from_le_bytes();
        assert(encoded@.len() == 5 + payload@.len());
    }
    share_buffer(registry, encoded)
}

/// Read the buffer at this address, when the address is live.
pub fn lookup_buffer<'a>(registry: &'a BufferRegistry, address: u32) -> (r: Option<&'a Vec<u8>>)
    requires
        registry.wf(),
    ensures
        r is Some <==> contains_address(registry@, address),
        r matches Some(b) ==> b@ == buffer_at(registry@, address),
{
    match registry.find_index(address) {
        None => None,
        Some(i) => {
            proof {
                lemma_address_index_unique(registry@, i as int);
            }
            Some(&registry.entries[i].1)
        },
    }
}

} // verus!

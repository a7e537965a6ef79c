//! Properties that hold across calls of the library's operations, stated over
//! the views that the operations' contracts use.

use vstd::prelude::*;

use crate::group::sender_key_request_name;
use crate::distribution::uuid_bytes;
use crate::sender_key_store::{sender_key_name, SenderKeyName};

verus! {

/// A sender key that has just been stored is found, and it is the record
/// stored.
pub proof fn law_load_after_store<R>(contents: Map<SenderKeyName, R>, name: SenderKeyName, record: R)
    ensures
        contents.insert(name, record).contains_key(name),
        contents.insert(name, record)[name] == record,
{
}

/// Storing a sender key under one name leaves every other name as it was.
pub proof fn law_store_keeps_other_keys<R>(
    contents: Map<SenderKeyName, R>,
    name: SenderKeyName,
    record: R,
    other: SenderKeyName,
)
    requires
        other != name,
    ensures
        contents.insert(name, record).contains_key(other) == contents.contains_key(other),
        contents.contains_key(other) ==> contents.insert(name, record)[other] == contents[other],
{
}

/// After a sender key is deleted it is no longer found, and deleting it a
/// second time reports that nothing was there.
pub proof fn law_absent_after_delete<R>(contents: Map<SenderKeyName, R>, name: SenderKeyName)
    ensures
        !contents.remove(name).contains_key(name),
        contents.remove(name).remove(name) == contents.remove(name),
{
    assert(contents.remove(name).remove(name) =~= contents.remove(name));
}

/// Deleting one sender key leaves every other name as it was.
pub proof fn law_delete_keeps_other_keys<R>(
    contents: Map<SenderKeyName, R>,
    name: SenderKeyName,
    other: SenderKeyName,
)
    requires
        other != name,
    ensures
        contents.remove(name).contains_key(other) == contents.contains_key(other),
        contents.contains_key(other) ==> contents.remove(name)[other] == contents[other],
{
}

/// Deleting a key that was just stored gives back the store as it was before
/// the key was stored, if the name was free then.
pub proof fn law_delete_undoes_store<R>(contents: Map<SenderKeyName, R>, name: SenderKeyName, record: R)
    requires
        !contents.contains_key(name),
    ensures
        contents.insert(name, record).remove(name) == contents,
{
    assert(contents.insert(name, record).remove(name) =~= contents);
}

/// Two requests with the same sender, device and distribution bytes refer to
/// the same sender key, and requests differing in any of them to different
/// keys.
pub proof fn law_request_names_identify_keys(
    sender_a: Seq<char>,
    device_a: u32,
    dist_a: Seq<u8>,
    sender_b: Seq<char>,
    device_b: u32,
    dist_b: Seq<u8>,
)
    requires
        1 <= device_a <= 127,
        1 <= device_b <= 127,
    ensures
        (sender_key_request_name(sender_a, device_a, dist_a) == sender_key_request_name(
            sender_b,
            device_b,
            dist_b,
        )) <==> (sender_a == sender_b && device_a == device_b && dist_a == dist_b),
{
}

/// A peer whose session was just recorded is reported as having one.
pub proof fn law_session_recorded(peers: Set<Seq<char>>, peer: Seq<char>)
    ensures
        peers.insert(peer).contains(peer),
{
}

/// A peer whose session was just forgotten is reported as having none, and
/// no other peer is affected.
pub proof fn law_session_forgotten(peers: Set<Seq<char>>, peer: Seq<char>, other: Seq<char>)
    ensures
        !peers.remove(peer).contains(peer),
        other != peer ==> (peers.remove(peer).contains(other) == peers.contains(other)),
{
}

/// After all sessions are cleared no peer has one, and clearing again
/// reports zero sessions.
pub proof fn law_nothing_after_clear(peer: Seq<char>)
    ensures
        !Set::<Seq<char>>::empty().contains(peer),
        Set::<Seq<char>>::empty().len() as u32 == 0,
{
}

/// After the sender-key store is reset no sender key is found.
pub proof fn law_nothing_after_reset<R>(name: SenderKeyName)
    ensures
        !Map::<SenderKeyName, R>::empty().contains_key(name),
{
}

/// Two distribution ids name the same sender key of a sender exactly when
/// they hold the same 16 bytes: ids that differ in any byte get different
/// keys.
pub proof fn law_distribution_ids_separate_keys(sender: (Seq<char>, u8), a: uuid::Uuid, b: uuid::Uuid)
    ensures
        (sender_key_name(sender, a) == sender_key_name(sender, b)) <==> (uuid_bytes(a) == uuid_bytes(b)),
{
}

/// A request naming a sender, device and distribution bytes refers to the
/// key that the store files under the parsed id holding those bytes.
pub proof fn law_request_refers_to_parsed_id(
    sender_id: Seq<char>,
    sender_device_id: u32,
    distribution_id: Seq<u8>,
    parsed: uuid::Uuid,
)
    requires
        uuid_bytes(parsed) == distribution_id,
    ensures
        sender_key_request_name(sender_id, sender_device_id, distribution_id) == sender_key_name(
            (sender_id, sender_device_id as u8),
            parsed,
        ),
{
}

/// After a key of a sender is stored under distribution id `a`, a lookup or
/// delete request for the same sender and device with distribution bytes
/// that differ from `a`'s finds what it found before, and deleting it leaves
/// the key stored under `a` in place.
pub proof fn law_other_distribution_untouched<R>(
    contents: Map<SenderKeyName, R>,
    sender_id: Seq<char>,
    sender_device_id: u32,
    a: uuid::Uuid,
    record: R,
    other_distribution_id: Seq<u8>,
)
    requires
        other_distribution_id != uuid_bytes(a),
    ensures
        ({
            let stored = contents.insert(sender_key_name((sender_id, sender_device_id as u8), a), record);
            let other = sender_key_request_name(sender_id, sender_device_id, other_distribution_id);
            &&& stored.contains_key(other) == contents.contains_key(other)
            &&& stored.remove(other).contains_key(sender_key_name((sender_id, sender_device_id as u8), a))
            &&& stored.remove(other)[sender_key_name((sender_id, sender_device_id as u8), a)] == record
        }),
{
}

/// Reading back the bytes of a distribution id parsed from 16 bytes gives
/// those 16 bytes, whatever they are.
pub proof fn law_distribution_id_round_trip(bytes: Seq<u8>, parsed: uuid::Uuid, read_back: Seq<u8>)
    requires
        uuid_bytes(parsed) == bytes,
        read_back == uuid_bytes(parsed),
    ensures
        read_back == bytes,
{
}

/// Distribution ids parsed from different bytes are different ids.
pub proof fn law_distinct_bytes_distinct_ids(a: uuid::Uuid, b: uuid::Uuid)
    requires
        uuid_bytes(a) != uuid_bytes(b),
    ensures
        a != b,
{
}

} // verus!

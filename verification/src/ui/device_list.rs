use vstd::prelude::*;
use vstd::utf8::{encode_utf8, is_char_boundary};
use crate::connection::command::DriverConfigurationDescriptor;

verus! {

/// The longest device name shown under a device's icon, in bytes.
pub const DEVICE_NAME_LABEL_BYTES: usize = 16;

/// The longest serial number shown under a device's icon, in bytes.
pub const SERIAL_NUMBER_LABEL_BYTES: usize = 21;

/// The label shown for a text in a device's button: its first `max_bytes`
/// bytes of UTF-8 (all of it when shorter); nothing when that cut falls
/// inside a character.
pub fn label(text: &String, max_bytes: usize) -> (res: String)
    ensures
        ({
            let bytes = encode_utf8(text@);
            let n = if bytes.len() < max_bytes {
                bytes.len() as int
            } else {
                max_bytes as int
            };
            if is_char_boundary(bytes, n) {
                encode_utf8(res@) == bytes.subrange(0, n)
            } else {
                res@ == Seq::<char>::empty()
            }
        }),
{
    let s = text.as_str();
    let len = s.as_bytes().len();
    let n = if len < max_bytes {
        len
    } else {
        max_bytes
    };
    if s.is_char_boundary(n) {
        let (first, _) = s.split_at(n);
        first.to_owned()
    } else {
        String::new()
    }
}

/// What `image::load_from_memory` gives for a driver's icon bytes, as
/// width, height and RGBA pixels; `None` when it cannot read them.
pub uninterp spec fn decoded_icon(data: Seq<u8>) -> Option<(u32, u32, Seq<u8>)>;

/// `image::load_from_memory`, the image taken as RGBA pixels: its width,
/// height and pixels, or `None` when the bytes hold no image it can read.
#[verifier::external_body]
fn decode_icon(data: &Vec<u8>) -> (res: Option<(u32, u32, Vec<u8>)>)
    ensures
        match res {
            Some(t) => decoded_icon(data@) == Some((t.0, t.1, t.2@)),
            None => decoded_icon(data@) is None,
        },
{
    let image = image::load_from_memory(data).ok()?.to_rgba8();
    Some((image.width(), image.height(), image.into_raw()))
}

/// The icon that a driver sent, decoded, or `None` when it is no image;
/// the device list then shows the driver's mice without an icon.
pub fn device_icon(descriptor: &DriverConfigurationDescriptor) -> (res: Option<(u32, u32, Vec<u8>)>)
    ensures
        match res {
            Some(t) => decoded_icon(descriptor@.device_icon) == Some((t.0, t.1, t.2@)),
            None => decoded_icon(descriptor@.device_icon) is None,
        },
{
    decode_icon(&descriptor.device_icon)
}

/// A mouse as the device list shows it: its driver's number and its serial
/// number.
pub open spec fn entry_view(e: (u64, String)) -> (u64, Seq<char>) {
    (e.0, e.1@)
}

pub open spec fn entries_view(v: Seq<(u64, String)>) -> Seq<(u64, Seq<char>)> {
    v.map_values(|e: (u64, String)| entry_view(e))
}

/// The first `n` entries hold `e`.
pub open spec fn occurs_before(v: Seq<(u64, Seq<char>)>, n: int, e: (u64, Seq<char>)) -> bool {
    exists|k: int| 0 <= k < n && #[trigger] v[k] == e
}

/// A shown mouse stays: its drivers still list it, and it is the first
/// shown entry for that mouse.
pub open spec fn kept(
    shown: Seq<(u64, Seq<char>)>,
    listed: Seq<(u64, Seq<char>)>,
    i: int,
) -> bool {
    occurs_before(listed, listed.len() as int, shown[i]) && !occurs_before(shown, i, shown[i])
}

/// The listed mice that are not shown yet, in the order they are listed,
/// each once.
pub open spec fn new_entries(
    shown: Seq<(u64, Seq<char>)>,
    listed: Seq<(u64, Seq<char>)>,
) -> Seq<(u64, Seq<char>)>
    decreases listed.len(),
{
    if listed.len() == 0 {
        seq![]
    } else {
        let prev = new_entries(shown, listed.drop_last());
        let e = listed.last();
        if occurs_before(shown, shown.len() as int, e) || occurs_before(
            prev,
            prev.len() as int,
            e,
        ) {
            prev
        } else {
            prev.push(e)
        }
    }
}

fn contains_entry(v: &Vec<(u64, String)>, n: usize, e: &(u64, String)) -> (res: bool)
    requires
        n <= v@.len(),
    ensures
        res == occurs_before(entries_view(v@), n as int, entry_view(*e)),
{
    let ghost ev = entries_view(v@);
    let mut k: usize = 0;
    while k < n
        invariant
            n <= v@.len(),
            ev == entries_view(v@),
            k <= n,
            forall|j: int| 0 <= j < k ==> ev[j] != entry_view(*e),
        decreases n - k,
    {
        if v[k].0 == e.0 && v[k].1 == e.1 {
            assert(ev[k as int] == entry_view(*e));
            return true;
        }
        k = k + 1;
    }
    false
}

/// Which shown mice stay, and which listed mice are added, when the device
/// list is matched against what the drivers list (drivers by a number):
/// `res.0[i]` tells whether `shown[i]` stays (it is listed, and no earlier
/// shown entry is the same mouse); `res.1` holds the listed mice not yet
/// shown, in the order they are listed, each once.
pub fn reconcile_devices(shown: &Vec<(u64, String)>, listed: &Vec<(u64, String)>) -> (res: (
    Vec<bool>,
    Vec<(u64, String)>,
))
    ensures
        res.0@.len() == shown@.len(),
        forall|i: int|
            0 <= i < shown@.len() ==> #[trigger] res.0@[i] == kept(
                entries_view(shown@),
                entries_view(listed@),
                i,
            ),
        entries_view(res.1@) == new_entries(entries_view(shown@), entries_view(listed@)),
{
    let ghost sv = entries_view(shown@);
    let ghost lv = entries_view(listed@);
    let mut keep: Vec<bool> = Vec::new();
    let mut i: usize = 0;
    while i < shown.len()
        invariant
            sv == entries_view(shown@),
            lv == entries_view(listed@),
            i <= shown@.len(),
            keep@.len() == i,
            forall|k: int| 0 <= k < i ==> #[trigger] keep@[k] == kept(sv, lv, k),
        decreases shown@.len() - i,
    {
        let listed_now = contains_entry(listed, listed.len(), &shown[i]);
        let earlier = contains_entry(shown, i, &shown[i]);
        keep.push(listed_now && !earlier);
        i = i + 1;
    }
    let mut added: Vec<(u64, String)> = Vec::new();
    let mut j: usize = 0;
    while j < listed.len()
        invariant
            sv == entries_view(shown@),
            lv == entries_view(listed@),
            j <= listed@.len(),
            entries_view(added@) == new_entries(sv, lv.subrange(0, j as int)),
        decreases listed@.len() - j,
    {
        let ghost before = added@;
        proof {
            assert(lv.subrange(0, j + 1).drop_last() =~= lv.subrange(0, j as int));
            assert(lv.subrange(0, j + 1).last() == entry_view(listed@[j as int]));
        }
        let in_shown = contains_entry(shown, shown.len(), &listed[j]);
        let in_added = contains_entry(&added, added.len(), &listed[j]);
        if !in_shown && !in_added {
            let e = (listed[j].0, listed[j].1.clone());
            added.push(e);
            assert(entries_view(added@) =~= entries_view(before).push(entry_view(e)));
        }
        j = j + 1;
    }
    assert(lv.subrange(0, listed@.len() as int) =~= lv);
    (keep, added)
}

} // verus!

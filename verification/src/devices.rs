//! Input-device decisions shared by the dictation worker and the Settings
//! device picker: the fallback notice, which devices the picker lists, how
//! a hotplug change updates the device list, and what it does to the
//! notice line.

use vstd::prelude::*;

use crate::text::{opt_view, push_str};

verus! {

/// The characters of each string.
pub open spec fn names_view(v: Seq<String>) -> Seq<Seq<char>> {
    v.map_values(|s: String| s@)
}

/// Whether `v` holds `name`.
pub fn contains_name(v: &Vec<String>, name: &str) -> (b: bool)
    ensures
        b == names_view(v@).contains(name@),
{
    let mut i: usize = 0;
    while i < v.len()
        invariant
            i <= v.len(),
            forall|j: int| 0 <= j < i ==> v@[j]@ != name@,
        decreases v.len() - i,
    {
        if crate::labels::str_eq(v[i].as_str(), name) {
            assert(names_view(v@)[i as int] == name@);
            return true;
        }
        i += 1;
    }
    assert forall|j: int| 0 <= j < names_view(v@).len() implies names_view(v@)[j] != name@ by {
        assert(names_view(v@)[j] == v@[j]@);
    }
    false
}

/// The notice shown when the configured input device `name` is not
/// connected, so recording falls back to the default microphone.
pub open spec fn fallback_notice_of(name: Seq<char>) -> Seq<char> {
    "\u{201c}"@ + name + "\u{201d} is not connected \u{2014} recording from the default microphone instead."@
}

/// The notice shown when the configured device is connected but hidden by
/// the Bluetooth/virtual source toggles.
pub open spec fn hidden_notice_of(name: Seq<char>) -> Seq<char> {
    "\u{201c}"@ + name
        + "\u{201d} is hidden by the source settings above but is still the microphone whspr records from."@
}

/// The notice shown when the configured input device `name` is not
/// connected, so recording falls back to the OS default input device. One
/// wording for every place that detects it.
pub fn fallback_notice(name: &str) -> (notice: String)
    ensures
        notice@ == fallback_notice_of(name@),
{
    let mut out = String::new();
    push_str(&mut out, "\u{201c}");
    push_str(&mut out, name);
    push_str(
        &mut out,
        "\u{201d} is not connected \u{2014} recording from the default microphone instead.",
    );
    assert(out@ =~= fallback_notice_of(name@));
    out
}

fn hidden_notice(name: &str) -> (notice: String)
    ensures
        notice@ == hidden_notice_of(name@),
{
    let mut out = String::new();
    push_str(&mut out, "\u{201c}");
    push_str(&mut out, name);
    push_str(
        &mut out,
        "\u{201d} is hidden by the source settings above but is still the microphone whspr records from.",
    );
    assert(out@ =~= hidden_notice_of(name@));
    out
}

/// What the Settings input-device picker lists.
#[derive(Debug)]
pub struct DevicePicker {
    /// The connected devices the source toggles allow, in host order, plus
    /// the configured device at the end when it would otherwise be hidden.
    pub options: Vec<String>,
    /// Why the configured device is listed anyway, when it is.
    pub note: Option<String>,
}

/// The picker's options: the allowed devices, plus the configured one when
/// they lack it.
pub open spec fn picker_options(allowed: Seq<Seq<char>>, configured: Option<Seq<char>>) -> Seq<
    Seq<char>,
> {
    match configured {
        Some(name) => if allowed.contains(name) {
            allowed
        } else {
            allowed.push(name)
        },
        None => allowed,
    }
}

/// The picker's note: why a configured device that the allowed list lacks
/// is shown anyway.
pub open spec fn picker_note(
    connected: Seq<Seq<char>>,
    allowed: Seq<Seq<char>>,
    configured: Option<Seq<char>>,
) -> Option<Seq<char>> {
    match configured {
        Some(name) => if allowed.contains(name) {
            None
        } else if connected.contains(name) {
            Some(hidden_notice_of(name))
        } else {
            Some(fallback_notice_of(name))
        },
        None => None,
    }
}

/// Builds the picker from the `connected` device names, the devices among
/// them that the Bluetooth/virtual source toggles `allowed`, and the
/// `configured` input device. The configured device is never silently
/// dropped: a filtered-out or disconnected selection stays listed, with a
/// note saying which it is.
pub fn device_picker(connected: &Vec<String>, allowed: Vec<String>, configured: Option<&str>) -> (p:
    DevicePicker)
    ensures
        names_view(p.options@) == picker_options(
            names_view(allowed@),
            match configured {
                Some(n) => Some(n@),
                None => None,
            },
        ),
        opt_view(p.note) == picker_note(
            names_view(connected@),
            names_view(allowed@),
            match configured {
                Some(n) => Some(n@),
                None => None,
            },
        ),
{
    let mut options = allowed;
    match configured {
        Some(name) => {
            if contains_name(&options, name) {
                DevicePicker { options, note: None }
            } else {
                let ghost before = options@;
                options.push(String::from_str(name));
                assert(names_view(options@) =~= names_view(before).push(name@));
                let note = if contains_name(connected, name) {
                    hidden_notice(name)
                } else {
                    fallback_notice(name)
                };
                DevicePicker { options, note: Some(note) }
            }
        },
        None => DevicePicker { options, note: None },
    }
}

/// The devices that connected and disconnected in one hotplug event.
#[derive(Debug)]
pub struct DeviceChange {
    pub added: Vec<String>,
    pub removed: Vec<String>,
}

/// `list` without any name in `removed`, order kept.
pub open spec fn without_removed(list: Seq<Seq<char>>, removed: Seq<Seq<char>>) -> Seq<Seq<char>>
    decreases list.len(),
{
    if list.len() == 0 {
        Seq::empty()
    } else {
        let rest = without_removed(list.drop_last(), removed);
        if removed.contains(list.last()) {
            rest
        } else {
            rest.push(list.last())
        }
    }
}

/// `list` with each name of `added` appended, in order, unless already
/// listed.
pub open spec fn with_added(list: Seq<Seq<char>>, added: Seq<Seq<char>>) -> Seq<Seq<char>>
    decreases added.len(),
{
    if added.len() == 0 {
        list
    } else {
        let l = with_added(list, added.drop_last());
        if l.contains(added.last()) {
            l
        } else {
            l.push(added.last())
        }
    }
}

/// The connected devices after a hotplug change.
pub open spec fn after_change(
    connected: Seq<Seq<char>>,
    added: Seq<Seq<char>>,
    removed: Seq<Seq<char>>,
) -> Seq<Seq<char>> {
    with_added(without_removed(connected, removed), added)
}

/// `connected` after a hotplug `change`: removed devices dropped, newly
/// added ones appended, nothing listed twice.
pub fn apply_device_change(connected: &Vec<String>, change: &DeviceChange) -> (devices: Vec<
    String,
>)
    ensures
        names_view(devices@) == after_change(
            names_view(connected@),
            names_view(change.added@),
            names_view(change.removed@),
        ),
{
    let mut devices: Vec<String> = Vec::new();
    let mut i: usize = 0;
    while i < connected.len()
        invariant
            i <= connected.len(),
            names_view(devices@) == without_removed(
                names_view(connected@).take(i as int),
                names_view(change.removed@),
            ),
        decreases connected.len() - i,
    {
        let ghost before = devices@;
        let keep = !contains_name(&change.removed, connected[i].as_str());
        if keep {
            devices.push(connected[i].clone());
        }
        proof {
            let t = names_view(connected@).take(i + 1);
            assert(t.drop_last() =~= names_view(connected@).take(i as int));
            assert(t.last() == connected@[i as int]@);
            if keep {
                assert(names_view(devices@) =~= names_view(before).push(connected@[i as int]@));
            }
        }
        i += 1;
    }
    assert(names_view(connected@).take(connected.len() as int) =~= names_view(connected@));
    let ghost base = names_view(devices@);
    let mut j: usize = 0;
    while j < change.added.len()
        invariant
            j <= change.added.len(),
            names_view(devices@) == with_added(base, names_view(change.added@).take(j as int)),
        decreases change.added.len() - j,
    {
        let ghost before = devices@;
        let present = contains_name(&devices, change.added[j].as_str());
        if !present {
            devices.push(change.added[j].clone());
        }
        proof {
            let t = names_view(change.added@).take(j + 1);
            assert(t.drop_last() =~= names_view(change.added@).take(j as int));
            assert(t.last() == change.added@[j as int]@);
            if !present {
                assert(names_view(devices@) =~= names_view(before).push(change.added@[j as int]@));
            }
        }
        j += 1;
    }
    assert(names_view(change.added@).take(change.added.len() as int) =~= names_view(
        change.added@,
    ));
    devices
}

/// How a hotplug change affects the notice line for the configured device.
#[derive(Debug)]
pub enum NoticeUpdate {
    /// Leave the notice as it is.
    Keep,
    /// The configured device just disconnected: show this fallback notice.
    Show(String),
    /// The configured device came back while its fallback notice is still
    /// showing: clear it.
    Clear,
}

/// The notice decision as plain data: keep (`None`), show a notice, or
/// clear (`Some(None)`).
pub open spec fn notice_decision(
    configured: Option<Seq<char>>,
    added: Seq<Seq<char>>,
    removed: Seq<Seq<char>>,
    current: Option<Seq<char>>,
) -> Option<Option<Seq<char>>> {
    match configured {
        None => None,
        Some(name) => if removed.contains(name) {
            Some(Some(fallback_notice_of(name)))
        } else if added.contains(name) && current == Some(fallback_notice_of(name)) {
            Some(None)
        } else {
            None
        },
    }
}

/// The decision a [`NoticeUpdate`] carries, as plain data.
pub open spec fn notice_update_view(u: NoticeUpdate) -> Option<Option<Seq<char>>> {
    match u {
        NoticeUpdate::Keep => None,
        NoticeUpdate::Show(s) => Some(Some(s@)),
        NoticeUpdate::Clear => Some(None),
    }
}

/// Decides [`NoticeUpdate`] for a hotplug `change`, given the notice
/// currently showing (`current`). Only the fallback notice for the
/// configured device is ever cleared: an unrelated notice stays up.
pub fn hotplug_notice(configured: Option<&str>, change: &DeviceChange, current: Option<&str>) -> (u:
    NoticeUpdate)
    ensures
        notice_update_view(u) == notice_decision(
            match configured {
                Some(n) => Some(n@),
                None => None,
            },
            names_view(change.added@),
            names_view(change.removed@),
            match current {
                Some(c) => Some(c@),
                None => None,
            },
        ),
{
    let name = match configured {
        None => return NoticeUpdate::Keep,
        Some(name) => name,
    };
    if contains_name(&change.removed, name) {
        return NoticeUpdate::Show(fallback_notice(name));
    }
    let returned = contains_name(&change.added, name);
    if returned {
        if let Some(cur) = current {
            let notice = fallback_notice(name);
            if crate::labels::str_eq(cur, notice.as_str()) {
                return NoticeUpdate::Clear;
            }
        }
    }
    NoticeUpdate::Keep
}

proof fn lemma_without_removed_members(list: Seq<Seq<char>>, removed: Seq<Seq<char>>)
    ensures
        forall|x: Seq<char>| #[trigger]
            without_removed(list, removed).contains(x) <==> list.contains(x) && !removed.contains(
                x,
            ),
    decreases list.len(),
{
    broadcast use vstd::seq_lib::lemma_seq_contains_after_push;

    if list.len() > 0 {
        lemma_without_removed_members(list.drop_last(), removed);
        let init = list.drop_last();
        let rest = without_removed(init, removed);
        assert(list =~= init.push(list.last()));
        assert forall|x: Seq<char>|
            #[trigger] without_removed(list, removed).contains(x) <==> list.contains(x)
                && !removed.contains(x) by {
            assert(init.push(list.last()).contains(x) <==> (list.last() == x || init.contains(x)));
            assert(rest.push(list.last()).contains(x) <==> (list.last() == x || rest.contains(x)));
        }
    } else {
        assert(without_removed(list, removed) =~= Seq::<Seq<char>>::empty());
    }
}

proof fn lemma_with_added_members(list: Seq<Seq<char>>, added: Seq<Seq<char>>)
    ensures
        forall|x: Seq<char>| #[trigger]
            with_added(list, added).contains(x) <==> list.contains(x) || added.contains(x),
    decreases added.len(),
{
    broadcast use vstd::seq_lib::lemma_seq_contains_after_push;

    if added.len() > 0 {
        lemma_with_added_members(list, added.drop_last());
        let init = added.drop_last();
        let l = with_added(list, init);
        assert(added =~= init.push(added.last()));
        assert forall|x: Seq<char>|
            #[trigger] with_added(list, added).contains(x) <==> list.contains(x) || added.contains(
                x,
            ) by {
            assert(init.push(added.last()).contains(x) <==> (added.last() == x || init.contains(
                x,
            )));
            assert(l.push(added.last()).contains(x) <==> (added.last() == x || l.contains(x)));
        }
    }
}

/// After a hotplug change a device is listed exactly when it was just
/// added, or was connected before and has not been removed.
pub proof fn device_change_membership(
    connected: Seq<Seq<char>>,
    added: Seq<Seq<char>>,
    removed: Seq<Seq<char>>,
    device: Seq<char>,
)
    ensures
        after_change(connected, added, removed).contains(device) <==> added.contains(device) || (
        connected.contains(device) && !removed.contains(device)),
{
    lemma_without_removed_members(connected, removed);
    lemma_with_added_members(without_removed(connected, removed), added);
}

/// Unplugging the configured device always shows its fallback notice,
/// whatever else the change holds and whatever notice is up.
pub proof fn unplugging_the_configured_device_warns(
    name: Seq<char>,
    added: Seq<Seq<char>>,
    removed: Seq<Seq<char>>,
    current: Option<Seq<char>>,
)
    requires
        removed.contains(name),
    ensures
        notice_decision(Some(name), added, removed, current) == Some(Some(fallback_notice_of(name))),
{
}

/// A hotplug change only ever clears the configured device's own fallback
/// notice, never an unrelated one.
pub proof fn only_the_fallback_notice_is_cleared(
    configured: Option<Seq<char>>,
    added: Seq<Seq<char>>,
    removed: Seq<Seq<char>>,
    current: Option<Seq<char>>,
)
    requires
        notice_decision(configured, added, removed, current) == Some(None::<Seq<char>>),
    ensures
        configured is Some,
        current == Some(fallback_notice_of(configured->Some_0)),
        added.contains(configured->Some_0),
        !removed.contains(configured->Some_0),
{
}

/// No name occurs twice in `list`.
pub open spec fn no_repeats(list: Seq<Seq<char>>) -> bool {
    forall|i: int, j: int| 0 <= i < j < list.len() ==> list[i] != list[j]
}

pub(crate) proof fn lemma_push_keeps_no_repeats(list: Seq<Seq<char>>, x: Seq<char>)
    requires
        no_repeats(list),
        !list.contains(x),
    ensures
        no_repeats(list.push(x)),
{
    let l = list.push(x);
    assert forall|i: int, j: int| 0 <= i < j < l.len() implies l[i] != l[j] by {
        if j == list.len() {
            assert(l[i] == list[i]);
            assert(list.contains(list[i]));
        } else {
            assert(l[i] == list[i] && l[j] == list[j]);
        }
    }
}

proof fn lemma_without_removed_no_repeats(list: Seq<Seq<char>>, removed: Seq<Seq<char>>)
    requires
        no_repeats(list),
    ensures
        no_repeats(without_removed(list, removed)),
    decreases list.len(),
{
    if list.len() > 0 {
        let init = list.drop_last();
        assert(no_repeats(init)) by {
            assert forall|i: int, j: int| 0 <= i < j < init.len() implies init[i] != init[j] by {
                assert(init[i] == list[i] && init[j] == list[j]);
            }
        }
        lemma_without_removed_no_repeats(init, removed);
        if !removed.contains(list.last()) {
            lemma_without_removed_members(init, removed);
            assert(!init.contains(list.last())) by {
                if init.contains(list.last()) {
                    let k = choose|k: int| 0 <= k < init.len() && init[k] == list.last();
                    assert(list[k] == list[list.len() - 1]);
                }
            }
            lemma_push_keeps_no_repeats(without_removed(init, removed), list.last());
        }
    }
}

proof fn lemma_with_added_no_repeats(list: Seq<Seq<char>>, added: Seq<Seq<char>>)
    requires
        no_repeats(list),
    ensures
        no_repeats(with_added(list, added)),
    decreases added.len(),
{
    if added.len() > 0 {
        lemma_with_added_no_repeats(list, added.drop_last());
        let l = with_added(list, added.drop_last());
        if !l.contains(added.last()) {
            lemma_push_keeps_no_repeats(l, added.last());
        }
    }
}

/// A hotplug change never lists a device twice: a list without repeats
/// stays without repeats.
pub proof fn a_device_is_never_listed_twice(
    connected: Seq<Seq<char>>,
    added: Seq<Seq<char>>,
    removed: Seq<Seq<char>>,
)
    requires
        no_repeats(connected),
    ensures
        no_repeats(after_change(connected, added, removed)),
{
    lemma_without_removed_no_repeats(connected, removed);
    lemma_with_added_no_repeats(without_removed(connected, removed), added);
}

/// The configured device is never silently dropped from the picker: it is
/// always listed, and when the allowed devices lack it a note says why.
pub proof fn the_configured_device_is_always_offered(
    connected: Seq<Seq<char>>,
    allowed: Seq<Seq<char>>,
    name: Seq<char>,
)
    ensures
        picker_options(allowed, Some(name)).contains(name),
        !allowed.contains(name) ==> picker_note(connected, allowed, Some(name)) is Some,
        allowed.contains(name) ==> picker_note(connected, allowed, Some(name)) is None,
{
    if !allowed.contains(name) {
        assert(allowed.push(name)[allowed.len() as int] == name);
    }
}

} // verus!

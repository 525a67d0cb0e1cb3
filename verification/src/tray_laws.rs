//! What holds of every menu, every click and every launch.

use vstd::prelude::*;

use crate::config;
use crate::config::{ConfigView, ModelFiles};
use crate::device_laws;
use crate::devices;
use crate::devices::{Device, DeviceDirection, DeviceList};
use crate::error;
use crate::error::{AudioError, StartErrorView};
use crate::menu;
use crate::menu::{ItemsView, MenuId, ModelOffer};
use crate::pipeline;
use crate::startup;
use crate::text;
use crate::tray;
use crate::tray::{Backend, CommandView, DenoiserChoice, TrayEvent, TrayStateView};

verus! {

// ---- the menu -------------------------------------------------------------

/// The menu never offers a loop: an entry can be chosen exactly when it is not a
/// cable's own output, and following the default exactly when the default is
/// not.
pub proof fn the_menu_never_offers_a_loop(c: ConfigView, list: &DeviceList, i: int)
    requires
        0 <= i < list.capture@.len(),
    ensures
        menu::mic_items(c, Some(list)).len() == list.capture@.len() + 1,
        menu::mic_items(c, Some(list))[i + 1].item.enabled == (
        list.capture@[i].cable_output() is None),
        menu::mic_items(c, Some(list))[i + 1].device_id == list.capture@[i].id@,
        menu::mic_items(c, Some(list))[0].item.enabled == (match list.system_default() {
            Some(d) => d.cable_output() is None,
            None => true,
        }),
{
}

/// A disabled entry says why: its label names the cable.
pub proof fn a_greyed_out_entry_says_why(
    name: Seq<char>,
    is_default: bool,
    product: Seq<char>,
    rank: Option<int>,
)
    ensures
        text::contains(menu::mic_label(name, is_default, Some(product), rank).0, product),
        text::contains(menu::mic_label(name, is_default, Some(product), rank).0, name),
        text::contains(menu::default_label(Some(product)).0, product),
{
    let l = menu::mic_label(name, is_default, Some(product), rank).0;
    assert(l.subrange(0, name.len() as int) =~= name);
    assert(text::stands_at(l, name, 0));
    let at = (name.len() + "  — "@.len()) as int;
    assert(l.subrange(at, at + product.len()) =~= product);
    assert(text::stands_at(l, product, at));
    let d = menu::default_label(Some(product)).0;
    let at = "Windows default  — currently "@.len() as int;
    assert(d.subrange(at, at + product.len()) =~= product);
    assert(text::stands_at(d, product, at));
}

/// The default entry is ticked exactly when no preference is expressed, and a
/// microphone exactly when it is the first preference: never both.
pub proof fn the_first_choice_is_ticked(c: ConfigView, list: &DeviceList, i: int)
    requires
        0 <= i < list.capture@.len(),
    ensures
        menu::mic_items(c, Some(list))[0].item.checked == (c.microphones.len() == 0),
        menu::mic_items(c, Some(list))[i + 1].item.checked == (c.microphones.len() > 0
            && devices::same_device(c.microphones[0], list.capture@[i].friendly_name@)),
{
    lemma_rank(c.microphones, list.capture@[i].friendly_name@, 0);
}

proof fn lemma_rank(preferences: Seq<Seq<char>>, name: Seq<char>, from: int)
    requires
        0 <= from,
    ensures
        menu::rank_of(preferences, name, from) matches Some(k) ==> from <= k < preferences.len()
            && devices::same_device(preferences[k], name),
    decreases preferences.len() - from,
{
    if from < preferences.len() && !devices::same_device(preferences[from], name) {
        lemma_rank(preferences, name, from + 1);
    }
}

/// One denoiser is ticked when the menu is built, and it is the one that the
/// settings ask for: the model only when there is one and it is switched on.
pub proof fn one_denoiser_is_ticked(c: ConfigView, model: Option<&ModelOffer>, i: int)
    requires
        0 <= i < menu::denoiser_items(c, model).len(),
    ensures
        menu::denoiser_items(c, model)[i].item.checked == (menu::denoiser_items(c, model)[i].onnx
            == (c.use_onnx && model is Some)),
        menu::denoiser_items(c, model)[i].onnx == (i == 1),
        menu::denoiser_items(c, model).len() == (if model is Some {
            2int
        } else {
            1
        }),
{
}

/// The menu that comes up first ticks the denoiser that runs: both go by the model
/// that is there, and by the switch.
pub proof fn the_first_menu_ticks_what_runs(
    c: ConfigView,
    model: Option<&ModelOffer>,
    files: ModelFiles,
    i: int,
)
    requires
        (model is Some) == (config::model_of(c, files) is Some),
        0 <= i < menu::denoiser_items(c, model).len(),
    ensures
        ({
            let runs = tray::backend_of(config::active_model_of(c, files) is Some);
            let entry = menu::denoiser_items(c, model)[i];
            entry.item.checked == (entry.onnx == (runs == Backend::Model))
        }),
{
}

/// Choosing the default stops expressing a preference; choosing a microphone
/// puts it first; and nothing else of the settings changes.
pub proof fn choosing_a_microphone_touches_nothing_else(c: ConfigView, name: Seq<char>)
    ensures
        menu::with_microphone(c, Seq::empty()).microphones.len() == 0,
        name.len() > 0 ==> menu::with_microphone(c, name).microphones.len() > 0
            && menu::with_microphone(c, name).microphones[0] == name,
        menu::with_microphone(c, name) == (ConfigView {
            microphones: menu::with_microphone(c, name).microphones,
            ..c
        }),
{
    config::the_chosen_microphone_leads(c.microphones, name);
}

/// Switching to the built-in denoiser and back does not lose where the model is.
pub proof fn the_place_of_the_model_is_remembered(c: ConfigView, path: Seq<char>)
    ensures
        menu::with_denoiser(menu::with_denoiser(c, true, Some(path)), false, None).model_path
            == path,
        menu::with_denoiser(menu::with_denoiser(c, true, Some(path)), false, Some(path)).model_path
            == path,
        menu::with_denoiser(
            menu::with_denoiser(menu::with_denoiser(c, true, Some(path)), false, None),
            true,
            Some(path),
        ) == menu::with_denoiser(c, true, Some(path)),
{
}

/// Ticks behave as radio buttons: exactly the entries with the chosen id are
/// ticked, and nothing but ticks changes.
pub proof fn ticks_are_exclusive(items: ItemsView, device_id: Seq<char>, onnx: bool, i: int)
    ensures
        0 <= i < items.mics.len() ==> items.with_mic(device_id).mics[i].item.checked == (
        items.mics[i].device_id == device_id) && items.with_mic(device_id).mics[i].item.label
            == items.mics[i].item.label,
        0 <= i < items.denoisers.len() ==> items.with_denoiser(onnx).denoisers[i].item.checked == (
        items.denoisers[i].onnx == onnx),
        items.with_mic(device_id).mics.len() == items.mics.len(),
        items.with_denoiser(onnx).denoisers.len() == items.denoisers.len(),
{
}

/// A microphone carries the number of the first preference that is the same hardware,
/// and none where no preference is.
pub proof fn a_rank_is_the_first_preference(preferences: Seq<Seq<char>>, name: Seq<char>, k: int)
    ensures
        0 <= k < preferences.len() && devices::same_device(preferences[k], name) && (forall|j: int|
            0 <= j < k ==> !devices::same_device(#[trigger] preferences[j], name))
            ==> menu::rank_of(preferences, name, 0) == Some(k),
        (forall|j: int|
            0 <= j < preferences.len() ==> !devices::same_device(#[trigger] preferences[j], name))
            ==> menu::rank_of(preferences, name, 0) is None,
{
    lemma_rank(preferences, name, 0);
    lemma_rank_first(preferences, name, 0);
}

proof fn lemma_rank_first(preferences: Seq<Seq<char>>, name: Seq<char>, from: int)
    requires
        0 <= from,
    ensures
        match menu::rank_of(preferences, name, from) {
            Some(k) => forall|j: int|
                from <= j < k ==> !devices::same_device(#[trigger] preferences[j], name),
            None => forall|j: int|
                from <= j < preferences.len() ==> !devices::same_device(
                    #[trigger] preferences[j],
                    name,
                ),
        },
    decreases preferences.len() - from,
{
    if from < preferences.len() && !devices::same_device(preferences[from], name) {
        lemma_rank_first(preferences, name, from + 1);
    }
}

/// A microphone is shown as its place in the preferences, counted from one, or as much
/// room, then its name, and whether it is the default. A cable's own output is shown
/// with its name and why it cannot be chosen.
pub proof fn a_microphone_is_shown_by_place_and_name(
    name: Seq<char>,
    is_default: bool,
    product: Seq<char>,
    rank: int,
)
    requires
        0 <= rank,
    ensures
        menu::mic_label(name, is_default, None, Some(rank)) == (
            text::decimal((rank + 1) as nat) + ".  "@ + name + if is_default {
                "  (system default)"@
            } else {
                ""@
            },
            true,
        ),
        menu::mic_label(name, is_default, None, None) == (
            "     "@ + name + if is_default {
                "  (system default)"@
            } else {
                ""@
            },
            true,
        ),
        menu::mic_label(name, is_default, Some(product), Some(rank)) == (
            name + "  — "@ + product + "'s own output, would loop"@,
            false,
        ),
        menu::mic_label(name, is_default, Some(product), None) == menu::mic_label(
            name,
            is_default,
            Some(product),
            Some(rank),
        ),
        menu::default_label(None) == ("Windows default"@, true),
        !menu::default_label(Some(product)).1,
{
}

/// The entry of a microphone is that of its device: its name, its rank among the
/// preferences, whether it is the default, and the cable it is the output of.
pub proof fn an_entry_shows_its_device(c: ConfigView, list: &DeviceList, i: int)
    requires
        0 <= i < list.capture@.len(),
    ensures
        ({
            let d = list.capture@[i];
            let entry = menu::mic_items(c, Some(list))[i + 1];
            &&& entry.item.label == menu::mic_label(
                d.friendly_name@,
                d.is_default,
                d.cable_output(),
                menu::rank_of(c.microphones, d.friendly_name@, 0),
            ).0
            &&& entry.friendly_name == d.friendly_name@
            &&& entry.device_id == d.id@
        }),
        ({
            let first = menu::mic_items(c, Some(list))[0];
            &&& first.item.label == menu::default_label(
                match list.system_default() {
                    Some(d) => d.cable_output(),
                    None => None,
                },
            ).0
            &&& first.device_id.len() == 0
            &&& first.friendly_name.len() == 0
        }),
{
}

/// A model is named after what will load it: a folder or an archive is DeepFilterNet3,
/// and anything else goes by its own name.
pub proof fn a_model_is_named_after_its_loader(name: Seq<char>, directory: bool)
    ensures
        menu::model_label(name, true) == "DeepFilterNet3"@,
        name.len() > 0 ==> menu::model_label(name + seq!['.', 'g', 'z'], directory)
            == "DeepFilterNet3"@,
        name.len() <= 3 || name[name.len() - 3] != '.' || name[name.len() - 2] != 'g'
            || name[name.len() - 1] != 'z' ==> menu::model_label(name, false) == name + " (ONNX)"@,
{
    let end = seq!['.', 'g', 'z'];
    let packed = name + end;
    assert(packed.skip(packed.len() - 3) =~= end);
    if menu::gzipped(name) {
        let last = name.skip(name.len() - 3);
        assert(last[0] == end[0] && last[1] == end[1] && last[2] == end[2]);
    }
}

/// The menu shows what the settings and the system say: the switch, whether we start
/// with the system, every microphone there is after the default, the built-in denoiser
/// always and the model where there is one, under their names.
pub proof fn the_menu_shows_how_things_are(
    c: ConfigView,
    list: Option<&DeviceList>,
    model: Option<&ModelOffer>,
    auto_start: bool,
)
    ensures
        ({
            let items = menu::items_of(c, list, model, auto_start);
            &&& items.enable.checked == c.enabled && items.enable.enabled && items.enable.label
                == "Enabled"@
            &&& items.auto_start.checked == auto_start && items.auto_start.enabled
                && items.auto_start.label == "Start with Windows"@
            &&& items.mics_unknown == (list is None)
            &&& items.mics.len() == 1 + (match list {
                Some(l) => l.capture@.len(),
                None => 0,
            })
            &&& items.denoisers[0].item.label == "RNNoise (built-in)"@ && items.denoisers[0].item.enabled
            &&& !items.denoisers[0].onnx
            &&& model matches Some(m) ==> items.denoisers.len() == 2 && items.denoisers[1].onnx
                && items.denoisers[1].item.enabled && items.denoisers[1].item.label
                == menu::model_label(m.file_name@, m.directory)
            &&& model is None ==> items.denoisers.len() == 1
        }),
{
}

/// Choosing a denoiser switches to it, remembers where a model was found only when the
/// model is what was chosen, and touches nothing else.
pub proof fn choosing_a_denoiser_touches_nothing_else(
    c: ConfigView,
    onnx: bool,
    available: Option<Seq<char>>,
)
    ensures
        menu::with_denoiser(c, onnx, available).use_onnx == onnx,
        available matches Some(path) ==> menu::with_denoiser(c, true, available).model_path == path,
        menu::with_denoiser(c, false, available).model_path == c.model_path,
        menu::with_denoiser(c, onnx, None).model_path == c.model_path,
        menu::with_denoiser(c, onnx, available) == (ConfigView {
            use_onnx: onnx,
            model_path: menu::with_denoiser(c, onnx, available).model_path,
            ..c
        }),
{
}

// ---- clicks ---------------------------------------------------------------

/// Settings, checkbox and icon agree once denoising was switched, and a second
/// left click undoes the first.
pub proof fn every_surface_agrees(s: TrayStateView, on: bool)
    ensures
        s.enabled(on).cfg.enabled == on,
        s.enabled(on).icon().enabled == on,
        s.enabled(on).items matches Some(items) ==> items.enable.checked == on,
        s.enabled(on).broken() == s.broken(),
        s.asked(TrayEvent::LeftRelease) == Some(CommandView::SetEnabled(!s.cfg.enabled)),
        s.enabled(!s.cfg.enabled).asked(TrayEvent::LeftRelease) == Some(
            CommandView::SetEnabled(s.cfg.enabled),
        ),
        s.enabled(!s.cfg.enabled).enabled(s.cfg.enabled).cfg == s.cfg,
{
}

/// The checkbox for denoising, where there is a menu, says what the settings
/// say.
pub open spec fn agrees(s: TrayStateView) -> bool {
    s.items matches Some(items) ==> items.enable.checked == s.cfg.enabled
}

/// The checkbox agrees with the settings from the moment there is a menu, and
/// whatever is chosen afterwards leaves it so.
pub proof fn the_checkbox_always_agrees(
    s: TrayStateView,
    list: Option<&DeviceList>,
    model: Option<&ModelOffer>,
    auto_start: bool,
    on: bool,
    device_id: Seq<char>,
    name: Seq<char>,
    licence: bool,
    available: Option<Seq<char>>,
)
    ensures
        agrees(
            TrayStateView { items: Some(menu::items_of(s.cfg, list, model, auto_start)), ..s },
        ),
        agrees(s.enabled(on)),
        agrees(s) ==> agrees(s.with_mic(device_id, name)),
        agrees(s) ==> agrees(s.with_denoiser(on, licence, available)),
{
}

/// Clicking on a microphone in the menu chooses that device, by its id and its
/// name; clicking on the default chooses none.
pub proof fn a_click_chooses_what_it_shows(
    s: TrayStateView,
    list: &DeviceList,
    model: Option<&ModelOffer>,
    auto_start: bool,
    i: usize,
    checked: bool,
)
    requires
        s.items == Some(menu::items_of(s.cfg, Some(list), model, auto_start)),
        i < list.capture@.len(),
        i < usize::MAX,
    ensures
        s.asked(TrayEvent::Menu { id: MenuId::Microphone(0), checked }) == Some(
            CommandView::SelectMic { device_id: Seq::empty(), name: Seq::empty() },
        ),
        s.asked(TrayEvent::Menu { id: MenuId::Microphone((i + 1) as usize), checked }) == Some(
            CommandView::SelectMic {
                device_id: list.capture@[i as int].id@,
                name: list.capture@[i as int].friendly_name@,
            },
        ),
{
    let items = menu::items_of(s.cfg, Some(list), model, auto_start);
    assert(items.mics[0] == menu::default_item(s.cfg, Some(list)));
    assert(items.mics[i + 1] == menu::mic_item(s.cfg, list.capture@[i as int]));
}

proof fn lemma_denoiser_entry(items: ItemsView, onnx: bool, from: int)
    requires
        0 <= from,
    ensures
        items.denoiser_from(onnx, from) matches Some(d) ==> d.onnx == onnx,
        (items.denoiser_from(onnx, from) is Some) == (exists|i: int|
            from <= i < items.denoisers.len() && (#[trigger] items.denoisers[i]).onnx == onnx),
    decreases items.denoisers.len() - from,
{
    if from < items.denoisers.len() && items.denoisers[from].onnx != onnx {
        lemma_denoiser_entry(items, onnx, from + 1);
    }
}

/// Clicking on a denoiser asks for the denoiser of that very entry, however its tick
/// stands; one that the menu does not offer cannot be asked for.
pub proof fn a_click_chooses_the_denoiser_it_shows(
    s: TrayStateView,
    items: ItemsView,
    onnx: bool,
    checked: bool,
)
    requires
        s.items == Some(items),
    ensures
        (exists|i: int|
            0 <= i < items.denoisers.len() && (#[trigger] items.denoisers[i]).onnx == onnx)
            ==> s.asked(TrayEvent::Menu { id: MenuId::Denoiser { onnx }, checked }) == Some(
            CommandView::SelectDenoiser { onnx },
        ),
        (forall|i: int|
            0 <= i < items.denoisers.len() ==> (#[trigger] items.denoisers[i]).onnx != onnx)
            ==> s.asked(TrayEvent::Menu { id: MenuId::Denoiser { onnx }, checked }) is None,
{
    lemma_denoiser_entry(items, onnx, 0);
}

/// With the menu as it is built, the built-in denoiser can always be asked for, and the
/// model where there is one.
pub proof fn the_menu_offers_both_denoisers(
    s: TrayStateView,
    list: Option<&DeviceList>,
    model: Option<&ModelOffer>,
    auto_start: bool,
    checked: bool,
)
    requires
        s.items == Some(menu::items_of(s.cfg, list, model, auto_start)),
    ensures
        s.asked(TrayEvent::Menu { id: MenuId::Denoiser { onnx: false }, checked }) == Some(
            CommandView::SelectDenoiser { onnx: false },
        ),
        s.asked(TrayEvent::Menu { id: MenuId::Denoiser { onnx: true }, checked })
            == if model is Some {
            Some(CommandView::SelectDenoiser { onnx: true })
        } else {
            None
        },
{
    let items = menu::items_of(s.cfg, list, model, auto_start);
    assert(!items.denoisers[0].onnx);
    if model is Some {
        assert(items.denoisers[1].onnx);
    }
    a_click_chooses_the_denoiser_it_shows(s, items, false, checked);
    a_click_chooses_the_denoiser_it_shows(s, items, true, checked);
}

/// A click on a microphone asks for the device of that very entry, by its id and its
/// name, however its tick stands; beyond the entries there is nothing to ask for.
pub proof fn a_click_chooses_the_microphone_it_shows(
    s: TrayStateView,
    items: ItemsView,
    i: usize,
    checked: bool,
)
    requires
        s.items == Some(items),
    ensures
        s.asked(TrayEvent::Menu { id: MenuId::Microphone(i), checked }) == if i
            < items.mics.len() {
            Some(
                CommandView::SelectMic {
                    device_id: items.mics[i as int].device_id,
                    name: items.mics[i as int].friendly_name,
                },
            )
        } else {
            None
        },
{
}

/// Each of the other entries asks for what it says: the two that can be ticked for how
/// their tick stands now, Help for the welcome, the logs for their folder, Quit for the
/// end. A left click switches denoising. Nothing else asks for anything, nor does a
/// click before there is a menu.
pub proof fn every_entry_does_what_it_says(
    s: TrayStateView,
    items: ItemsView,
    checked: bool,
    id: MenuId,
)
    ensures
        s.items == Some(items) ==> {
            &&& s.asked(TrayEvent::Menu { id: MenuId::Enable, checked }) == Some(
                CommandView::SetEnabled(checked),
            )
            &&& s.asked(TrayEvent::Menu { id: MenuId::AutoStart, checked }) == Some(
                CommandView::SetAutoStart(checked),
            )
            &&& s.asked(TrayEvent::Menu { id: MenuId::Help, checked }) == Some(
                CommandView::ShowWelcome,
            )
            &&& s.asked(TrayEvent::Menu { id: MenuId::OpenLogs, checked }) == Some(
                CommandView::OpenLogs,
            )
            &&& s.asked(TrayEvent::Menu { id: MenuId::Quit, checked }) == Some(CommandView::Quit)
        },
        s.items is None ==> s.asked(TrayEvent::Menu { id, checked }) is None,
        s.asked(TrayEvent::LeftRelease) == Some(CommandView::SetEnabled(!s.cfg.enabled)),
        s.asked(TrayEvent::Other) is None,
{
}

/// Choosing a microphone changes the preferences as a choice does and moves the tick to
/// that device; everything else in the tray stays as it is.
pub proof fn a_chosen_microphone_moves_the_tick(
    s: TrayStateView,
    device_id: Seq<char>,
    name: Seq<char>,
)
    ensures
        ({
            let after = s.with_mic(device_id, name);
            &&& after.cfg == menu::with_microphone(s.cfg, name)
            &&& after.items is Some <==> s.items is Some
            &&& s.items matches Some(items) ==> {
                &&& after.items->0.mics.len() == items.mics.len()
                &&& forall|i: int|
                    0 <= i < items.mics.len() ==> (
                    #[trigger] after.items->0.mics[i]).item.checked == (items.mics[i].device_id
                        == device_id) && after.items->0.mics[i].device_id
                        == items.mics[i].device_id
                        && after.items->0.mics[i].friendly_name == items.mics[i].friendly_name
                        && after.items->0.mics[i].item.label == items.mics[i].item.label
                        && after.items->0.mics[i].item.enabled == items.mics[i].item.enabled
                &&& after.items->0.denoisers == items.denoisers
                &&& after.items->0.enable == items.enable
                &&& after.items->0.auto_start == items.auto_start
            }
            &&& after == (TrayStateView { cfg: after.cfg, items: after.items, ..s })
        }),
        menu::with_microphone(s.cfg, name).microphones == if name.len() == 0 {
            Seq::<Seq<char>>::empty()
        } else {
            config::promoted(s.cfg.microphones, name)
        },
{
}

/// Switching denoising changes the setting and the tick of its entry and nothing else.
pub proof fn switching_touches_nothing_else(s: TrayStateView, on: bool)
    ensures
        ({
            let after = s.enabled(on);
            &&& after.cfg == (ConfigView { enabled: on, ..s.cfg })
            &&& after.items is Some <==> s.items is Some
            &&& s.items matches Some(items) ==> after.items->0 == (ItemsView {
                enable: after.items->0.enable,
                ..items
            }) && after.items->0.enable.checked == on && after.items->0.enable.label
                == items.enable.label && after.items->0.enable.enabled == items.enable.enabled
            &&& after == (TrayStateView { cfg: after.cfg, items: after.items, ..s })
        }),
{
}

/// A choice is taken exactly when it is for the built-in denoiser, or for a model that
/// is there under terms that were accepted; then the settings follow it, that denoiser
/// is the one ticked, and the audio is restarted. Nothing else in the tray changes
/// either way.
pub proof fn a_choice_is_taken_or_not(
    s: TrayStateView,
    onnx: bool,
    licence: bool,
    available: Option<Seq<char>>,
)
    ensures
        ({
            let choice = s.choice(onnx, licence, available is Some);
            let after = s.with_denoiser(onnx, licence, available);
            &&& choice == DenoiserChoice::Chosen <==> !onnx || licence && available is Some
            &&& choice == DenoiserChoice::Chosen ==> {
                &&& tray::restarts(choice)
                &&& after.cfg == menu::with_denoiser(s.cfg, onnx, available)
                &&& !after.built_in
                &&& after.items matches Some(items) ==> forall|i: int|
                    0 <= i < items.denoisers.len() ==> (#[trigger] items.denoisers[i]).item.checked
                        == (items.denoisers[i].onnx == onnx)
            }
            &&& choice != DenoiserChoice::Chosen ==> after.cfg == s.cfg && after.built_in
            &&& after.items is Some <==> s.items is Some
            &&& s.items matches Some(items) ==> after.items->0 == (ItemsView {
                denoisers: after.items->0.denoisers,
                ..items
            }) && after.items->0.denoisers.len() == items.denoisers.len()
            &&& after == (TrayStateView {
                cfg: after.cfg,
                built_in: after.built_in,
                items: after.items,
                ..s
            })
        }),
{
}

/// Audio is started with the model that the settings ask for, unless the built-in
/// denoiser is held; what was started is what runs.
pub proof fn audio_starts_with_what_was_asked_for(s: TrayStateView, files: ModelFiles)
    ensures
        s.built_in ==> s.model(files) is None,
        !s.built_in && !s.cfg.use_onnx ==> s.model(files) is None,
        !s.built_in && s.cfg.use_onnx ==> s.model(files) == config::model_of(s.cfg, files),
        s.started(files).runs == Some(
            if s.model(files) is Some {
                Backend::Model
            } else {
                Backend::BuiltIn
            },
        ),
        s.started(files) == (TrayStateView { runs: s.started(files).runs, ..s }),
        s.runs_model() == (s.runs == Some(Backend::Model)),
{
}

/// A microphone that is clicked on is the one that is tried first from then on;
/// and if its entry could be clicked on at all, it is not refused as a loop.
pub proof fn a_chosen_microphone_is_tried_first(c: ConfigView, list: DeviceList, i: int)
    requires
        0 <= i < list.capture@.len(),
        list.capture@[i].friendly_name@.len() > 0,
        forall|k: int|
            0 <= k < list.capture@.len() ==> (#[trigger] list.capture@[k]).direction
                == DeviceDirection::Capture,
    ensures
        ({
            let name = list.capture@[i].friendly_name@;
            let chosen = menu::with_microphone(c, name);
            let candidates = list.candidates(chosen.microphones);
            &&& candidates.len() > 0
            &&& candidates[0].friendly_name@ == name
            &&& list.capture@[i].cable_output() is None ==> candidates[0].cable_output() is None
            &&& list.capture@[i].cable_output() is None && list.output(c.output_device) is Ok
                ==> pipeline::selection(list, chosen) is Ok
        }),
{
    let name = list.capture@[i].friendly_name@;
    let chosen = menu::with_microphone(c, name);
    config::the_chosen_microphone_leads(c.microphones, name);
    device_laws::an_exact_name_wins(list.capture@, name);
    device_laws::a_name_resolves_to_its_hardware(list.capture@, name);
    device_laws::the_next_one_down_takes_over(list, chosen.microphones, 0);
    device_laws::every_microphone_is_a_candidate(list, chosen.microphones);
    let first = list.candidates(chosen.microphones)[0];
    assert(list.capture@.contains(first));
    let k = choose|k: int| 0 <= k < list.capture@.len() && list.capture@[k] == first;
    assert(list.capture@[k].direction == DeviceDirection::Capture);
    assert(list.capture@[i].direction == DeviceDirection::Capture);
}

/// Declining the licence, or there being no model, leaves the built-in denoiser
/// ticked and the settings alone. The audio is restarted exactly where a model is
/// running, even one whose file is gone by now, and from then on audio is started
/// with the built-in denoiser, whatever files there are by then.
pub proof fn declining_leaves_the_built_in_running(
    s: TrayStateView,
    licence: bool,
    available: Option<Seq<char>>,
    files: ModelFiles,
)
    requires
        !licence || available is None,
    ensures
        ({
            let choice = s.choice(true, licence, available is Some);
            let after = s.with_denoiser(true, licence, available);
            &&& choice is Declined <==> !licence
            &&& choice is Missing <==> licence
            &&& tray::restarts(choice) == s.runs_model()
            &&& after.runs == s.runs
            &&& after.started(files).runs == Some(Backend::BuiltIn)
            &&& after.cfg == s.cfg
            &&& after.items matches Some(items) ==> forall|i: int|
                0 <= i < items.denoisers.len() ==> (#[trigger] items.denoisers[i]).item.checked
                    == !items.denoisers[i].onnx
        }),
{
}

/// Once the built-in denoiser is held and no model runs, no model runs whatever
/// else is clicked on, however often the audio is started anew and whatever files
/// there are by then; and it stays held.
pub proof fn the_built_in_stays_until_a_choice(
    s: TrayStateView,
    on: bool,
    device_id: Seq<char>,
    name: Seq<char>,
    licence: bool,
    available: Option<Seq<char>>,
    files: ModelFiles,
)
    requires
        s.built_in && !s.runs_model(),
        !licence || available is None,
    ensures
        s.enabled(on).built_in && !s.enabled(on).runs_model(),
        s.with_mic(device_id, name).built_in && !s.with_mic(device_id, name).runs_model(),
        s.started(files).built_in && !s.started(files).runs_model(),
        s.with_denoiser(true, licence, available).built_in && !s.with_denoiser(
            true,
            licence,
            available,
        ).runs_model(),
        !tray::restarts(s.choice(true, licence, available is Some)),
{
}

/// The denoiser that is ticked is the one that runs, whichever was clicked on and
/// whatever was answered, once the restart that is asked for is done. A model that
/// was chosen has to be there then: `files` is what there is.
pub proof fn the_ticked_denoiser_runs(
    s: TrayStateView,
    onnx: bool,
    licence: bool,
    available: Option<Seq<char>>,
    files: ModelFiles,
    i: int,
)
    requires
        ({
            let after = s.with_denoiser(onnx, licence, available);
            after.cfg.use_onnx && !after.built_in ==> config::model_of(after.cfg, files) is Some
        }),
        s.items matches Some(items) && 0 <= i < items.denoisers.len(),
    ensures
        ({
            let after = s.with_denoiser(onnx, licence, available);
            let settled = if tray::restarts(s.choice(onnx, licence, available is Some)) {
                after.started(files)
            } else {
                after
            };
            let entry = settled.items->0.denoisers[i];
            &&& settled.items is Some
            &&& settled.running() ==> entry.item.checked == (entry.onnx == settled.runs_model())
        }),
{
}

/// A choice that is taken is taken back by nothing earlier: from then on the
/// settings say what runs.
pub proof fn a_choice_ends_the_hold(
    s: TrayStateView,
    onnx: bool,
    licence: bool,
    available: Option<Seq<char>>,
    files: ModelFiles,
)
    requires
        s.choice(onnx, licence, available is Some) == DenoiserChoice::Chosen,
    ensures
        ({
            let after = s.with_denoiser(onnx, licence, available);
            &&& after.cfg.use_onnx == onnx
            &&& after.model(files) == config::active_model_of(after.cfg, files)
        }),
{
}

/// The welcome is shown once, and only while audio runs.
pub proof fn the_welcome_is_shown_once(s: TrayStateView)
    ensures
        s.welcome_due() ==> s.running(),
        ({
            let shown = TrayStateView {
                cfg: ConfigView { welcomed: s.cfg.welcomed || s.welcome_due(), ..s.cfg },
                ..s
            };
            s.welcome_due() ==> !shown.welcome_due()
        }),
{
}

/// Offering the welcome marks it as shown exactly when it is due, and changes nothing
/// else.
pub proof fn a_welcome_is_remembered(s: TrayStateView)
    ensures
        s.greeted().cfg.welcomed == (s.cfg.welcomed || s.runs is Some),
        s.greeted() == (TrayStateView { cfg: s.greeted().cfg, ..s }),
        s.greeted().cfg == (ConfigView { welcomed: s.greeted().cfg.welcomed, ..s.cfg }),
        !s.greeted().welcome_due(),
{
}

/// Once the icon is up there is a menu, and what went wrong at startup is told and
/// forgotten; nothing else changes.
pub proof fn a_startup_problem_is_told_once(s: TrayStateView, items: ItemsView)
    ensures
        s.shown(items).items == Some(items),
        s.shown(items).startup_error is None,
        s.shown(items) == (TrayStateView { startup_error: None, items: Some(items), ..s }),
{
}

/// After a restart the tray knows what runs, and after one that failed that nothing does;
/// the settings and the menu stay as they are. Only the watchdog's own restarts touch its
/// counters, and only a restart that worked lets the next failure be news again.
pub proof fn a_restart_is_known(
    s: TrayStateView,
    b: Backend,
    frames: u64,
    polls: u64,
    reason: Seq<char>,
    now: u64,
)
    ensures
        s.restarted(Some(b)).runs == Some(b),
        s.restarted(None).runs is None,
        s.restarted(Some(b)) == (TrayStateView { runs: Some(b), ..s }),
        s.restarted(None) == (TrayStateView { runs: None, ..s }),
        ({
            let after = s.recovered(b, frames, polls, now);
            &&& after.runs == Some(b) && !after.health.stalled && after.failures is None
            &&& after.health.capture.last == frames && after.health.render.last == polls
            &&& after == (TrayStateView {
                runs: after.runs,
                health: after.health,
                failures: None,
                ..s
            })
        }),
        ({
            let after = s.still_stopped(reason, now);
            &&& after.runs is None
            &&& after.failures == (match s.failures {
                Some((seen, at)) => if seen == reason && now - at < 300_000_000_000 {
                    s.failures
                } else {
                    Some((reason, now))
                },
                None => Some((reason, now)),
            })
            &&& after == (TrayStateView { runs: None, failures: after.failures, ..s })
        }),
{
}

/// While a pipeline runs its counters are watched; without one the watchdog keeps asking
/// for a restart every five seconds, and the icon is left as it is. Looking changes
/// nothing but what the watchdog remembers.
pub proof fn the_watchdog_looks_at_what_there_is(
    s: TrayStateView,
    frames: u64,
    render_polls: u64,
    now: u64,
)
    ensures
        s.runs is Some ==> s.wants(frames, render_polls, now) == s.health.response(
            frames,
            render_polls,
            now,
        ) && s.watched(frames, render_polls, now).health == s.health.observed(
            frames,
            render_polls,
            now,
        ),
        s.runs is None ==> {
            &&& !s.wants(frames, render_polls, now).redraw
            &&& s.wants(frames, render_polls, now).restart == (now - s.health.last_recovery
                >= 5_000_000_000)
            &&& s.watched(frames, render_polls, now).health.stalled
            &&& s.wants(frames, render_polls, now).restart ==> s.watched(
                frames,
                render_polls,
                now,
            ).health.last_recovery == now
        },
        s.watched(frames, render_polls, now) == (TrayStateView {
            health: s.watched(frames, render_polls, now).health,
            ..s
        }),
{
}

/// The tooltip is renewed once a second, and not more often.
pub proof fn the_tooltip_is_renewed_every_second(s: TrayStateView, now: u64, later: u64)
    ensures
        s.tooltip_old(now) == (now - s.last_tooltip_update >= 1_000_000_000),
        s.tooltip_old(now) && now <= later < now + 1_000_000_000 ==> !s.tooltip_renewed(
            now,
        ).tooltip_old(later),
        s.tooltip_renewed(now).last_tooltip_update == if s.tooltip_old(now) {
            now
        } else {
            s.last_tooltip_update
        },
        s.tooltip_renewed(now) == (TrayStateView {
            last_tooltip_update: s.tooltip_renewed(now).last_tooltip_update,
            ..s
        }),
{
}

/// The tick for starting with the system shows what is, not what was wished for: what was
/// wanted where that worked, and the other where it did not. Nothing else changes.
pub proof fn the_autostart_tick_shows_what_is(s: TrayStateView, wanted: bool)
    ensures
        s.with_autostart(wanted, true).items is Some <==> s.items is Some,
        s.items matches Some(items) ==> {
            &&& s.with_autostart(wanted, true).items->0.auto_start.checked == wanted
            &&& s.with_autostart(wanted, false).items->0.auto_start.checked == !wanted
            &&& s.with_autostart(wanted, true).items->0 == (ItemsView {
                auto_start: s.with_autostart(wanted, true).items->0.auto_start,
                ..items
            })
            &&& s.with_autostart(wanted, true).items->0.auto_start.label
                == items.auto_start.label
        },
        s.with_autostart(wanted, true) == (TrayStateView {
            items: s.with_autostart(wanted, true).items,
            ..s
        }),
        s.with_autostart(wanted, false).cfg == s.cfg,
{
}

/// The icon carries the badge exactly when nothing reaches anybody, and then the
/// tooltip says so too.
pub proof fn a_broken_pipeline_explains_itself(s: TrayStateView)
    ensures
        s.icon().warning == (!s.running() || s.health.stalled),
        (tray::status_of(s.running(), s.health.stalled) is Some) == s.icon().warning,
{
}

/// The welcome names the microphone in use, which is not always the first choice:
/// of a device that is there it gives the name, and only without one the first
/// candidate's.
pub proof fn the_welcome_names_the_microphone_in_use(
    c: ConfigView,
    list: &DeviceList,
    id: Seq<char>,
    i: int,
)
    requires
        0 <= i < list.capture@.len(),
        list.capture@[i].id@ == id,
    ensures
        exists|k: int|
            0 <= k <= i && (#[trigger] list.capture@[k]).id@ == id && tray::welcome_mic(
                c,
                Some(list),
                Some(id),
            ) == list.capture@[k].friendly_name@,
        (forall|j: int| 0 <= j < i ==> (#[trigger] list.capture@[j]).id@ != id)
            ==> tray::welcome_mic(c, Some(list), Some(id)) == list.capture@[i].friendly_name@,
{
    lemma_first(list.capture@, devices::by_id(id), 0, i);
}

proof fn lemma_first(s: Seq<Device>, p: spec_fn(Device) -> bool, from: int, i: int)
    requires
        0 <= from <= i < s.len(),
        p(s[i]),
    ensures
        devices::first_where(s, p, from) matches Some(k) && from <= k <= i && p(s[k]),
    decreases i - from,
{
    if from < i && !p(s[from]) {
        lemma_first(s, p, from + 1, i);
    }
}

/// With no microphone in use, or one that is gone, the welcome names the one that is
/// tried first; and where there is none at all, or no list to be had, it says so
/// without a name.
pub proof fn the_welcome_falls_back(c: ConfigView, list: &DeviceList, id: Option<Seq<char>>)
    requires
        id matches Some(id) ==> forall|j: int|
            0 <= j < list.capture@.len() ==> (#[trigger] list.capture@[j]).id@ != id,
    ensures
        list.candidates(c.microphones).len() > 0 ==> tray::welcome_mic(c, Some(list), id)
            == list.candidates(c.microphones)[0].friendly_name@,
        list.candidates(c.microphones).len() == 0 ==> tray::welcome_mic(c, Some(list), id)
            == "your default microphone"@,
        tray::welcome_mic(c, None, id) == "your default microphone"@,
{
    if let Some(id) = id {
        lemma_pick(list.capture@, devices::by_id(id), 0);
    }
}

/// The welcome points at a cable whenever there is one to point at: the first
/// microphone that is a cable's output.
pub proof fn the_welcome_finds_the_cable(list: &DeviceList, i: int)
    requires
        0 <= i < list.capture@.len(),
        list.capture@[i].cable_output() is Some,
        forall|j: int| 0 <= j < i ==> (#[trigger] list.capture@[j]).cable_output() is None,
    ensures
        tray::welcome_cable(Some(list)) == Some(list.capture@[i].friendly_name@),
        tray::welcome_cable(None) is None,
{
    assert(devices::by_cable_output()(list.capture@[i]));
    lemma_first(list.capture@, devices::by_cable_output(), 0, i);
    let k = devices::first_where(list.capture@, devices::by_cable_output(), 0)->0;
    if k < i {
        assert(devices::by_cable_output()(list.capture@[k]));
        assert(list.capture@[k].cable_output() is None);
    }
}

/// The welcome is due exactly while audio runs and it has not been shown.
pub proof fn the_welcome_is_due_while_audio_runs(s: TrayStateView)
    ensures
        s.welcome_due() == (s.runs is Some && !s.cfg.welcomed),
        s.running() == (s.runs is Some),
        s.broken() == (s.runs is None || s.health.stalled),
        s.icon().enabled == s.cfg.enabled,
        s.icon().warning == (s.runs is None || s.health.stalled),
{
}

/// The tooltip tells a pipeline that is gone from one that has gone quiet, and says
/// neither of one that works.
pub proof fn the_tooltip_tells_what_is_wrong(stalled: bool)
    ensures
        tray::status_of(false, stalled) == Some("RoomMute — stopped (pick a microphone)"@),
        tray::status_of(true, true) == Some("RoomMute — no audio from the microphone"@),
        tray::status_of(true, false) is None,
{
}

/// The tooltip of a working pipeline names the denoiser, says whether it is on, and
/// gives both numbers.
pub proof fn the_tooltip_says_how_it_goes(
    denoiser: Seq<char>,
    cpu_pct: Seq<char>,
    peak_ms: Seq<char>,
)
    ensures
        tray::tooltip(denoiser, true, cpu_pct, peak_ms) == "RoomMute ("@ + denoiser + ")\n"@ + "ON"@
            + "  |  CPU: "@ + cpu_pct + "%  peak: "@ + peak_ms + "ms"@,
        tray::tooltip(denoiser, false, cpu_pct, peak_ms) == "RoomMute ("@ + denoiser + ")\n"@
            + "BYPASS"@ + "  |  CPU: "@ + cpu_pct + "%  peak: "@ + peak_ms + "ms"@,
        tray::first_tooltip(Some(denoiser)) == "RoomMute ("@ + denoiser + ") — starting"@,
        tray::first_tooltip(None) == "RoomMute — stopped"@,
{
}

/// What is said of a device that does not start, or of a setting of the system that
/// cannot be changed, gives the reason in full.
pub proof fn failures_are_told_with_their_reason(e: StartErrorView, why: Seq<char>)
    ensures
        text::contains(tray::restart_text(e), error::full_text(e.cause, e.contexts)),
        text::contains(tray::autostart_text(why), why),
{
    let full = error::full_text(e.cause, e.contexts);
    let r = tray::restart_text(e);
    let at = "Could not start audio with that device:\n\n"@.len() as int;
    assert(r.subrange(at, at + full.len()) =~= full);
    assert(text::stands_at(r, full, at));
    let a = tray::autostart_text(why);
    let at = "Could not change start-with-Windows:\n\n"@.len() as int;
    assert(a.subrange(at, at + why.len()) =~= why);
    assert(text::stands_at(a, why, at));
}

/// The welcome never names a half of the cable that other applications cannot
/// select: the device it names is one of the microphones.
pub proof fn the_welcome_names_the_capture_half(list: &DeviceList)
    ensures
        tray::welcome_cable(Some(list)) matches Some(name) ==> exists|i: int|
            0 <= i < list.capture@.len() && (#[trigger] list.capture@[i]).friendly_name@ == name
                && list.capture@[i].cable_output() is Some,
{
    lemma_pick(list.capture@, devices::by_cable_output(), 0);
    if let Some(i) = devices::first_where(list.capture@, devices::by_cable_output(), 0) {
        assert(devices::by_cable_output()(list.capture@[i]));
        assert(list.capture@[i].cable_output() is Some);
    }
}

proof fn lemma_pick(s: Seq<Device>, p: spec_fn(Device) -> bool, from: int)
    requires
        0 <= from,
    ensures
        devices::first_where(s, p, from) matches Some(i) ==> from <= i < s.len() && p(s[i]),
    decreases s.len() - from,
{
    if from < s.len() && !p(s[from]) {
        lemma_pick(s, p, from + 1);
    }
}

// ---- launches -------------------------------------------------------------

proof fn lemma_names(s: Seq<Device>, needle: Seq<char>)
    ensures
        forall|i: int|
            0 <= i < startup::names_with(s, needle).len() ==> text::contains(
                text::lower(#[trigger] startup::names_with(s, needle)[i]),
                text::lower(needle),
            ),
    decreases s.len(),
{
    if s.len() > 0 {
        let before = startup::names_with(s.drop_last(), needle);
        let after = startup::names_with(s, needle);
        lemma_names(s.drop_last(), needle);
        assert forall|i: int| 0 <= i < after.len() implies text::contains(
            text::lower(#[trigger] after[i]),
            text::lower(needle),
        ) by {
            if i < before.len() {
                assert(after[i] == before[i]);
            }
        }
    }
}

/// A microphone asked for by part of its name is never guessed: it is one whose
/// name contains that part, and the only one.
pub proof fn a_microphone_asked_for_is_never_guessed(
    list: Result<DeviceList, AudioError>,
    needle: Seq<char>,
)
    ensures
        startup::microphone_with(list, needle) matches Ok(name) ==> {
            &&& list is Ok
            &&& startup::names_with(list->Ok_0.capture@, needle) == seq![name]
            &&& text::contains(text::lower(name), text::lower(needle))
        },
{
    if let Ok(l) = list {
        lemma_names(l.capture@, needle);
        let names = startup::names_with(l.capture@, needle);
        if names.len() == 1 {
            assert(names =~= seq![names[0]]);
        }
    }
}

/// What was asked for with `--mic` leads the preferences, and the rest of them
/// stay as fallbacks.
pub proof fn an_override_leads(
    c: ConfigView,
    list: Result<DeviceList, AudioError>,
    filter: Seq<char>,
)
    ensures
        startup::overridden(c, list, Some(filter)) matches Ok(o) ==> o.microphones.len() > 0
            && startup::microphone_with(list, filter) == Ok::<Seq<char>, Seq<char>>(
            o.microphones[0],
        ),
        startup::overridden(c, list, None) == Ok::<ConfigView, Seq<char>>(c),
{
    if let Ok(name) = startup::microphone_with(list, filter) {
        config::the_chosen_microphone_leads(c.microphones, name);
    }
}

} // verus!

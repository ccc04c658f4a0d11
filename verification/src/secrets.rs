//! Where the API keys and the HuggingFace token live: in the OS keystore
//! when it survives a reboot, in the config file (plaintext) otherwise.
//! The keystore itself is the platform's; this module decides what the
//! config becomes and what the user is told, given what the keystore did.

use vstd::prelude::*;

use crate::platform::Platform;
use crate::string_map::StringMap;
use crate::text::{opt_view, push_str};

verus! {

/// What the platform calls its keystore.
pub open spec fn keystore_label_of(p: Platform) -> Seq<char> {
    match p {
        Platform::Windows => "Credential Manager"@,
        _ => "Keychain"@,
    }
}

/// What the platform calls its keystore, for UI copy.
pub fn keystore_label(platform: Platform) -> (l: &'static str)
    ensures
        l@ == keystore_label_of(platform),
{
    match platform {
        Platform::Windows => "Credential Manager",
        _ => "Keychain",
    }
}

/// A secret the user manages from the Hub.
#[derive(Debug, Clone, Copy, PartialEq, Eq, Hash)]
pub enum SecretSlot {
    /// A cloud backend's API key, by backend id (`"openai"`, ...).
    ApiKey(&'static str),
    /// The HuggingFace access token.
    HfToken,
}

/// Every secret the Hub manages: the three cloud API keys and the
/// HuggingFace token.
pub fn managed_secrets() -> (v: Vec<SecretSlot>)
    ensures
        v@ == seq![
            SecretSlot::ApiKey("openai"),
            SecretSlot::ApiKey("anthropic"),
            SecretSlot::ApiKey("deepgram"),
            SecretSlot::HfToken,
        ],
{
    let mut v: Vec<SecretSlot> = Vec::new();
    v.push(SecretSlot::ApiKey("openai"));
    v.push(SecretSlot::ApiKey("anthropic"));
    v.push(SecretSlot::ApiKey("deepgram"));
    v.push(SecretSlot::HfToken);
    assert(v@ =~= seq![
        SecretSlot::ApiKey("openai"),
        SecretSlot::ApiKey("anthropic"),
        SecretSlot::ApiKey("deepgram"),
        SecretSlot::HfToken,
    ]);
    v
}

/// Where a managed secret currently lives.
#[derive(Debug, Clone, Copy, PartialEq, Eq, Structural)]
pub enum SecretLocation {
    /// In the OS keystore.
    Keystore,
    /// In the config file, in plaintext.
    ConfigFile,
    /// Not set anywhere.
    Missing,
}

/// The secret-holding part of the config: the API keys by backend id and
/// the HuggingFace token.
#[derive(Debug)]
pub struct SecretConfig {
    pub api_keys: StringMap,
    pub hf_token: Option<String>,
}

/// The content of a [`SecretConfig`].
pub struct SecretsView {
    pub api_keys: Map<Seq<char>, Seq<char>>,
    pub hf_token: Option<Seq<char>>,
}

impl View for SecretConfig {
    type V = SecretsView;

    open spec fn view(&self) -> SecretsView {
        SecretsView { api_keys: self.api_keys@, hf_token: opt_view(self.hf_token) }
    }
}

impl SecretConfig {
    /// The key table is well formed.
    pub open spec fn wf(&self) -> bool {
        self.api_keys.wf()
    }

    /// A config holding no secret.
    pub fn new() -> (c: Self)
        ensures
            c.wf(),
            c@.api_keys == Map::<Seq<char>, Seq<char>>::empty(),
            c@.hf_token is None,
    {
        SecretConfig { api_keys: StringMap::new(), hf_token: None }
    }
}

/// The plaintext copy of `slot` in the config, if it has one.
pub open spec fn plaintext_of(c: SecretsView, slot: SecretSlot) -> Option<Seq<char>> {
    match slot {
        SecretSlot::ApiKey(id) => if c.api_keys.contains_key(id@) {
            Some(c.api_keys[id@])
        } else {
            None
        },
        SecretSlot::HfToken => c.hf_token,
    }
}

/// The config with `slot`'s plaintext copy set to `value`.
pub open spec fn with_plaintext(c: SecretsView, slot: SecretSlot, value: Seq<char>) -> SecretsView {
    match slot {
        SecretSlot::ApiKey(id) => SecretsView { api_keys: c.api_keys.insert(id@, value), ..c },
        SecretSlot::HfToken => SecretsView { hf_token: Some(value), ..c },
    }
}

/// The config with `slot`'s plaintext copy dropped.
pub open spec fn without_plaintext(c: SecretsView, slot: SecretSlot) -> SecretsView {
    match slot {
        SecretSlot::ApiKey(id) => SecretsView { api_keys: c.api_keys.remove(id@), ..c },
        SecretSlot::HfToken => SecretsView { hf_token: None, ..c },
    }
}

/// Whether `slot` has a plaintext copy in `config`.
pub fn has_plaintext(config: &SecretConfig, slot: SecretSlot) -> (b: bool)
    requires
        config.wf(),
    ensures
        b == plaintext_of(config@, slot) is Some,
{
    match slot {
        SecretSlot::ApiKey(id) => config.api_keys.contains_key(id),
        SecretSlot::HfToken => config.hf_token.is_some(),
    }
}

/// Writes `value` as `slot`'s plaintext copy.
pub fn set_plaintext(config: &mut SecretConfig, slot: SecretSlot, value: &str)
    requires
        old(config).wf(),
    ensures
        final(config).wf(),
        final(config)@ == with_plaintext(old(config)@, slot, value@),
{
    match slot {
        SecretSlot::ApiKey(id) => config.api_keys.insert(id, String::from_str(value)),
        SecretSlot::HfToken => config.hf_token = Some(String::from_str(value)),
    }
}

/// Drops `slot`'s plaintext copy.
pub fn clear_plaintext(config: &mut SecretConfig, slot: SecretSlot)
    requires
        old(config).wf(),
    ensures
        final(config).wf(),
        final(config)@ == without_plaintext(old(config)@, slot),
{
    match slot {
        SecretSlot::ApiKey(id) => config.api_keys.remove(id),
        SecretSlot::HfToken => config.hf_token = None,
    }
}

/// Where `slot` lives. The keystore wins (it is what secrets are resolved
/// from first) when `in_keystore`: the keystore survives a reboot and
/// reading the entry gave a value (an unreadable keystore counts as not
/// there). Otherwise the config file, if it holds a plaintext copy.
pub open spec fn location_of(c: SecretsView, in_keystore: bool, slot: SecretSlot) -> SecretLocation {
    if in_keystore {
        SecretLocation::Keystore
    } else if plaintext_of(c, slot) is Some {
        SecretLocation::ConfigFile
    } else {
        SecretLocation::Missing
    }
}

/// Finds where `slot` lives, given whether the persistent keystore holds
/// it (`in_keystore`).
pub fn locate_secret(config: &SecretConfig, in_keystore: bool, slot: SecretSlot) -> (l:
    SecretLocation)
    requires
        config.wf(),
    ensures
        l == location_of(config@, in_keystore, slot),
{
    if in_keystore {
        SecretLocation::Keystore
    } else if has_plaintext(config, slot) {
        SecretLocation::ConfigFile
    } else {
        SecretLocation::Missing
    }
}

/// What the keystore did with a save or a removal.
#[derive(Debug)]
pub enum KeystoreOutcome {
    /// The keystore forgets on reboot, so it was not used.
    NotPersistent,
    /// The keystore accepted the change.
    Done,
    /// The keystore refused, with this reason.
    Failed(String),
}

fn push_keystore_error(out: &mut String, lead: &str, platform: Platform, error: &str)
    ensures
        final(out)@ == old(out)@ + lead@ + keystore_label_of(platform) + ": "@ + error@,
{
    push_str(out, lead);
    push_str(out, keystore_label(platform));
    push_str(out, ": ");
    push_str(out, error);
    assert(out@ =~= old(out)@ + lead@ + keystore_label_of(platform) + ": "@ + error@);
}

/// The outcome of a save as plain data.
pub open spec fn store_result_view(r: Result<SecretLocation, String>) -> Result<
    SecretLocation,
    Seq<char>,
> {
    match r {
        Ok(l) => Ok(l),
        Err(e) => Err(e@),
    }
}

/// Saves `value` as `slot`, given what the keystore did with it. With a
/// keystore that forgets on reboot the secret goes into the config in
/// plaintext; when the keystore took it, any plaintext copy is dropped so
/// the next config save stops writing it to disk; a keystore failure
/// leaves the config untouched and says why.
pub fn store_secret(
    config: &mut SecretConfig,
    slot: SecretSlot,
    value: &str,
    keystore: &KeystoreOutcome,
    platform: Platform,
) -> (r: Result<SecretLocation, String>)
    requires
        old(config).wf(),
    ensures
        final(config).wf(),
        match keystore {
            KeystoreOutcome::NotPersistent => final(config)@ == with_plaintext(
                old(config)@,
                slot,
                value@,
            ) && r == Ok::<SecretLocation, String>(SecretLocation::ConfigFile),
            KeystoreOutcome::Done => final(config)@ == without_plaintext(old(config)@, slot) && r
                == Ok::<SecretLocation, String>(SecretLocation::Keystore),
            KeystoreOutcome::Failed(e) => final(config)@ == old(config)@ && store_result_view(r)
                == Err::<SecretLocation, Seq<char>>(
                "could not save to the "@ + keystore_label_of(platform) + ": "@ + e@,
            ),
        },
{
    match keystore {
        KeystoreOutcome::NotPersistent => {
            set_plaintext(config, slot, value);
            Ok(SecretLocation::ConfigFile)
        },
        KeystoreOutcome::Done => {
            clear_plaintext(config, slot);
            Ok(SecretLocation::Keystore)
        },
        KeystoreOutcome::Failed(error) => {
            let mut out = String::new();
            push_keystore_error(&mut out, "could not save to the ", platform, error.as_str());
            assert(out@ =~= "could not save to the "@ + keystore_label_of(platform) + ": "@
                + error@);
            Err(out)
        },
    }
}

/// Removes `slot` everywhere: its plaintext copy always, and reports a
/// keystore that refused to delete its entry.
pub fn clear_secret(
    config: &mut SecretConfig,
    slot: SecretSlot,
    keystore: &KeystoreOutcome,
    platform: Platform,
) -> (r: Result<(), String>)
    requires
        old(config).wf(),
    ensures
        final(config).wf(),
        final(config)@ == without_plaintext(old(config)@, slot),
        match keystore {
            KeystoreOutcome::Failed(e) => r matches Err(m) && m@ == "could not remove it from the "@
                + keystore_label_of(platform) + ": "@ + e@,
            _ => r is Ok,
        },
{
    clear_plaintext(config, slot);
    match keystore {
        KeystoreOutcome::Failed(error) => {
            let mut out = String::new();
            push_keystore_error(&mut out, "could not remove it from the ", platform, error.as_str());
            assert(out@ =~= "could not remove it from the "@ + keystore_label_of(platform) + ": "@
                + error@);
            Err(out)
        },
        _ => Ok(()),
    }
}

/// The caption under a key row saying where its saved key lives, without
/// ever showing the key.
pub open spec fn location_caption_of(l: SecretLocation, p: Platform) -> Seq<char> {
    match l {
        SecretLocation::Keystore => "Saved \u{2014} stored in "@ + keystore_label_of(p),
        SecretLocation::ConfigFile => "Saved in config.toml (plaintext)"@,
        SecretLocation::Missing => "Not set"@,
    }
}

/// The caption under a key row saying where its saved key lives.
pub fn location_caption(location: SecretLocation, platform: Platform) -> (c: String)
    ensures
        c@ == location_caption_of(location, platform),
{
    let mut out = String::new();
    match location {
        SecretLocation::Keystore => {
            push_str(&mut out, "Saved \u{2014} stored in ");
            push_str(&mut out, keystore_label(platform));
        },
        SecretLocation::ConfigFile => push_str(&mut out, "Saved in config.toml (plaintext)"),
        SecretLocation::Missing => push_str(&mut out, "Not set"),
    }
    assert(out@ =~= location_caption_of(location, platform));
    out
}

/// The API-key rows of the Accounts section: (backend id, field label), in
/// display order. Every id is a managed secret.
pub const API_KEY_FIELDS: [(&'static str, &'static str); 3] = [
    ("openai", "OpenAI API key"),
    ("anthropic", "Anthropic API key"),
    ("deepgram", "Deepgram API key"),
];

/// The browsers whose signed-in session media import can borrow on each
/// platform, as (id, display label).
pub open spec fn cookie_browsers_of(p: Platform) -> Seq<(Seq<char>, Seq<char>)> {
    match p {
        Platform::Windows => seq![("chrome"@, "Chrome"@), ("firefox"@, "Firefox"@), ("edge"@, "Edge"@)],
        Platform::MacOs => seq![("firefox"@, "Firefox"@), ("chrome"@, "Chrome"@), ("safari"@, "Safari"@)],
        Platform::Linux => seq![
            ("firefox"@, "Firefox"@),
            ("chrome"@, "Chrome"@),
            ("chromium"@, "Chromium"@),
        ],
    }
}

/// The cookie sources offered on `platform`, as (id, display label).
pub fn cookie_browsers(platform: Platform) -> (v: Vec<(&'static str, &'static str)>)
    ensures
        v@.map_values(|e: (&'static str, &'static str)| (e.0@, e.1@)) == cookie_browsers_of(
            platform,
        ),
{
    let mut v: Vec<(&'static str, &'static str)> = Vec::new();
    match platform {
        Platform::Windows => {
            v.push(("chrome", "Chrome"));
            v.push(("firefox", "Firefox"));
            v.push(("edge", "Edge"));
        },
        Platform::MacOs => {
            v.push(("firefox", "Firefox"));
            v.push(("chrome", "Chrome"));
            v.push(("safari", "Safari"));
        },
        Platform::Linux => {
            v.push(("firefox", "Firefox"));
            v.push(("chrome", "Chrome"));
            v.push(("chromium", "Chromium"));
        },
    }
    assert(v@.map_values(|e: (&'static str, &'static str)| (e.0@, e.1@)) =~= cookie_browsers_of(
        platform,
    ));
    v
}

/// One chip of the media-import sign-in picker.
#[derive(Debug)]
pub struct BrowserChip {
    pub label: &'static str,
    /// The browser the chip picks; `None` for "No sign-in".
    pub browser: Option<&'static str>,
    /// The chip is the current choice.
    pub selected: bool,
}

/// A chip as plain values: label, browser, selected.
pub open spec fn chip_view(c: BrowserChip) -> (Seq<char>, Option<Seq<char>>, bool) {
    (
        c.label@,
        match c.browser {
            Some(b) => Some(b@),
            None => None,
        },
        c.selected,
    )
}

/// The chips for `current`: "No sign-in" first, then each browser of the
/// platform; exactly the current choice is selected.
pub open spec fn browser_chips_of(p: Platform, current: Option<Seq<char>>) -> Seq<
    (Seq<char>, Option<Seq<char>>, bool),
> {
    seq![("No sign-in"@, None, current is None)] + cookie_browsers_of(p).map_values(
        |e: (Seq<char>, Seq<char>)| (e.1, Some(e.0), current == Some(e.0)),
    )
}

/// The sign-in picker's chips on `platform` with `current` chosen.
pub fn browser_chips(platform: Platform, current: Option<&str>) -> (v: Vec<BrowserChip>)
    ensures
        v@.map_values(|c: BrowserChip| chip_view(c)) == browser_chips_of(
            platform,
            match current {
                Some(c) => Some(c@),
                None => None,
            },
        ),
{
    let ghost cur = match current {
        Some(c) => Some(c@),
        None => None::<Seq<char>>,
    };
    let browsers = cookie_browsers(platform);
    let ghost tail = cookie_browsers_of(platform).map_values(
        |e: (Seq<char>, Seq<char>)| (e.1, Some(e.0), cur == Some(e.0)),
    );
    let mut v: Vec<BrowserChip> = Vec::new();
    v.push(BrowserChip { label: "No sign-in", browser: None, selected: current.is_none() });
    let ghost head = v@.map_values(|c: BrowserChip| chip_view(c));
    let mut i: usize = 0;
    while i < browsers.len()
        invariant
            i <= browsers.len(),
            browsers@.map_values(|e: (&'static str, &'static str)| (e.0@, e.1@))
                == cookie_browsers_of(platform),
            cur == (match current {
                Some(c) => Some(c@),
                None => None::<Seq<char>>,
            }),
            tail == cookie_browsers_of(platform).map_values(
                |e: (Seq<char>, Seq<char>)| (e.1, Some(e.0), cur == Some(e.0)),
            ),
            v@.map_values(|c: BrowserChip| chip_view(c)) == head + tail.take(i as int),
        decreases browsers.len() - i,
    {
        let (id, label) = browsers[i];
        let selected = match current {
            Some(c) => crate::labels::str_eq(c, id),
            None => false,
        };
        let ghost before = v@;
        v.push(BrowserChip { label, browser: Some(id), selected });
        assert(cookie_browsers_of(platform)[i as int] == (id@, label@));
        assert(v@.map_values(|c: BrowserChip| chip_view(c)) =~= before.map_values(
            |c: BrowserChip| chip_view(c),
        ).push((label@, Some(id@), cur == Some(id@))));
        i += 1;
        assert(v@.map_values(|c: BrowserChip| chip_view(c)) =~= head + tail.take(i as int));
    }
    assert(tail.take(browsers.len() as int) =~= tail);
    v
}

/// At most one sign-in chip is ever selected.
pub proof fn one_browser_chip_is_selected(p: Platform, current: Option<Seq<char>>, i: int, j: int)
    requires
        0 <= i < j < browser_chips_of(p, current).len(),
    ensures
        !(browser_chips_of(p, current)[i].2 && browser_chips_of(p, current)[j].2),
{
    let chips = browser_chips_of(p, current);
    let ids = cookie_browsers_of(p);
    reveal_strlit("chrome");
    reveal_strlit("firefox");
    reveal_strlit("edge");
    reveal_strlit("safari");
    reveal_strlit("chromium");
    assert(ids.len() == 3);
    assert(ids[0].0 != ids[1].0 && ids[0].0 != ids[2].0 && ids[1].0 != ids[2].0) by {
        assert(ids[0].0.len() != ids[1].0.len() || ids[0].0[0] != ids[1].0[0]);
        assert(ids[0].0.len() != ids[2].0.len() || ids[0].0[0] != ids[2].0[0]);
        assert(ids[1].0.len() != ids[2].0.len() || ids[1].0[0] != ids[2].0[0]);
    }
    if i > 0 {
        assert(chips[i] == (ids[i - 1].1, Some(ids[i - 1].0), current == Some(ids[i - 1].0)));
    } else {
        assert(chips[i].2 == (current is None));
    }
    assert(chips[j] == (ids[j - 1].1, Some(ids[j - 1].0), current == Some(ids[j - 1].0)));
}

/// After a successful save the secret is found where the save said it
/// went: in the keystore when the keystore took it, and otherwise in the
/// config file, holding exactly the saved value.
pub proof fn a_saved_secret_is_found_where_it_went(
    c: SecretsView,
    slot: SecretSlot,
    value: Seq<char>,
)
    ensures
        location_of(with_plaintext(c, slot, value), false, slot) == SecretLocation::ConfigFile,
        plaintext_of(with_plaintext(c, slot, value), slot) == Some(value),
        location_of(without_plaintext(c, slot), true, slot) == SecretLocation::Keystore,
        plaintext_of(without_plaintext(c, slot), slot) is None,
{
}

/// Clearing a secret leaves it nowhere once the keystore no longer holds
/// it.
pub proof fn a_cleared_secret_is_missing(c: SecretsView, slot: SecretSlot)
    ensures
        location_of(without_plaintext(c, slot), false, slot) == SecretLocation::Missing,
{
}

/// Saving or clearing one secret never touches another API key.
pub proof fn other_secrets_are_untouched(
    c: SecretsView,
    id: &'static str,
    other: &'static str,
    value: Seq<char>,
)
    requires
        id@ != other@,
    ensures
        plaintext_of(with_plaintext(c, SecretSlot::ApiKey(id), value), SecretSlot::ApiKey(other))
            == plaintext_of(c, SecretSlot::ApiKey(other)),
        plaintext_of(without_plaintext(c, SecretSlot::ApiKey(id)), SecretSlot::ApiKey(other))
            == plaintext_of(c, SecretSlot::ApiKey(other)),
        plaintext_of(with_plaintext(c, SecretSlot::ApiKey(id), value), SecretSlot::HfToken)
            == c.hf_token,
{
}

} // verus!

//! The two unified model selectors: one list of speech-recognition
//! backends and one of refiners, each mixing the cloud backends with the
//! model files found on disk, and the mapping between a pick and the config.
//! Model files are named by their path, as text.

use vstd::prelude::*;

use crate::labels::str_eq;
use crate::text::{clone_opt, opt_view, push_str};

verus! {

/// The speech-recognition backend the config selects.
#[derive(Debug, Clone, Copy, PartialEq, Eq, Structural)]
pub enum AsrChoice {
    WhisperLocal,
    OpenAi,
    Deepgram,
    /// A stand-in for tests; never offered in the selector.
    Mock,
}

/// The refiner the config selects.
#[derive(Debug, Clone, Copy, PartialEq, Eq, Structural)]
pub enum RefineChoice {
    /// No refinement: the raw transcript.
    Noop,
    OpenAi,
    Anthropic,
    LlamaLocal,
}

/// The config fields the selectors read and write.
#[derive(Debug)]
pub struct ModelConfig {
    pub asr: AsrChoice,
    /// The whisper model file, kept when a cloud backend is picked.
    pub whisper_model_path: Option<String>,
    pub refine: RefineChoice,
    /// The GGUF model file, kept when another refiner is picked.
    pub llama_model_path: Option<String>,
}

/// A [`ModelConfig`] as plain values.
pub struct ModelConfigView {
    pub asr: AsrChoice,
    pub whisper_model_path: Option<Seq<char>>,
    pub refine: RefineChoice,
    pub llama_model_path: Option<Seq<char>>,
}

impl View for ModelConfig {
    type V = ModelConfigView;

    open spec fn view(&self) -> ModelConfigView {
        ModelConfigView {
            asr: self.asr,
            whisper_model_path: opt_view(self.whisper_model_path),
            refine: self.refine,
            llama_model_path: opt_view(self.llama_model_path),
        }
    }
}

/// One entry of the speech-recognition selector.
#[derive(Debug)]
pub enum AsrOption {
    /// A whisper model file on disk.
    Local(String),
    /// A cloud backend.
    Cloud(AsrChoice),
}

/// An [`AsrOption`] as plain values.
pub enum AsrOptionView {
    Local(Seq<char>),
    Cloud(AsrChoice),
}

impl View for AsrOption {
    type V = AsrOptionView;

    open spec fn view(&self) -> AsrOptionView {
        match self {
            AsrOption::Local(p) => AsrOptionView::Local(p@),
            AsrOption::Cloud(c) => AsrOptionView::Cloud(*c),
        }
    }
}

/// One entry of the refiner selector.
#[derive(Debug)]
pub enum RefineOption {
    /// No refinement.
    Raw,
    /// A cloud refiner.
    Cloud(RefineChoice),
    /// A GGUF model file on disk.
    Local(String),
}

/// A [`RefineOption`] as plain values.
pub enum RefineOptionView {
    Raw,
    Cloud(RefineChoice),
    Local(Seq<char>),
}

impl View for RefineOption {
    type V = RefineOptionView;

    open spec fn view(&self) -> RefineOptionView {
        match self {
            RefineOption::Raw => RefineOptionView::Raw,
            RefineOption::Cloud(c) => RefineOptionView::Cloud(*c),
            RefineOption::Local(p) => RefineOptionView::Local(p@),
        }
    }
}

/// The views of a list of options.
pub open spec fn asr_views(v: Seq<AsrOption>) -> Seq<AsrOptionView> {
    v.map_values(|o: AsrOption| o@)
}

/// The views of a list of options.
pub open spec fn refine_views(v: Seq<RefineOption>) -> Seq<RefineOptionView> {
    v.map_values(|o: RefineOption| o@)
}

/// The views of a list of paths.
pub open spec fn path_views(v: Seq<String>) -> Seq<Seq<char>> {
    v.map_values(|p: String| p@)
}

/// The speech-recognition entry the config selects: a local file for
/// `WhisperLocal` with a model path, the backend for a cloud choice, none
/// otherwise.
pub open spec fn selected_asr_of(c: ModelConfigView) -> Option<AsrOptionView> {
    match c.asr {
        AsrChoice::WhisperLocal => match c.whisper_model_path {
            Some(p) => Some(AsrOptionView::Local(p)),
            None => None,
        },
        AsrChoice::OpenAi => Some(AsrOptionView::Cloud(AsrChoice::OpenAi)),
        AsrChoice::Deepgram => Some(AsrOptionView::Cloud(AsrChoice::Deepgram)),
        AsrChoice::Mock => None,
    }
}

/// The entry the speech-recognition selector shows as picked.
pub fn selected_asr(config: &ModelConfig) -> (o: Option<AsrOption>)
    ensures
        match o {
            Some(x) => selected_asr_of(config@) == Some(x@),
            None => selected_asr_of(config@) is None,
        },
{
    match config.asr {
        AsrChoice::WhisperLocal => match &config.whisper_model_path {
            Some(p) => Some(AsrOption::Local(p.clone())),
            None => None,
        },
        AsrChoice::OpenAi => Some(AsrOption::Cloud(AsrChoice::OpenAi)),
        AsrChoice::Deepgram => Some(AsrOption::Cloud(AsrChoice::Deepgram)),
        AsrChoice::Mock => None,
    }
}

/// The config after picking `o`: a local file selects `WhisperLocal` and
/// that file; a cloud entry selects the backend and keeps the model path.
pub open spec fn with_asr(c: ModelConfigView, o: AsrOptionView) -> ModelConfigView {
    match o {
        AsrOptionView::Local(p) => ModelConfigView {
            asr: AsrChoice::WhisperLocal,
            whisper_model_path: Some(p),
            ..c
        },
        AsrOptionView::Cloud(choice) => ModelConfigView { asr: choice, ..c },
    }
}

/// Writes a speech-recognition pick into the config.
pub fn apply_asr(config: &mut ModelConfig, option: &AsrOption)
    ensures
        final(config)@ == with_asr(old(config)@, option@),
{
    match option {
        AsrOption::Local(p) => {
            config.asr = AsrChoice::WhisperLocal;
            config.whisper_model_path = Some(p.clone());
        },
        AsrOption::Cloud(choice) => {
            config.asr = *choice;
        },
    }
}

fn same_asr(a: &AsrOption, b: &AsrOption) -> (r: bool)
    ensures
        r == (a@ == b@),
{
    match (a, b) {
        (AsrOption::Local(x), AsrOption::Local(y)) => str_eq(x.as_str(), y.as_str()),
        (AsrOption::Cloud(x), AsrOption::Cloud(y)) => *x == *y,
        _ => false,
    }
}

/// The speech-recognition selector's entries: the cloud backends, then
/// each whisper file found on disk, then the configured file if the scan
/// missed it.
pub open spec fn asr_options_of(found: Seq<Seq<char>>, c: ModelConfigView) -> Seq<AsrOptionView> {
    let listed = seq![AsrOptionView::Cloud(AsrChoice::OpenAi), AsrOptionView::Cloud(AsrChoice::Deepgram)]
        + found.map_values(|p: Seq<char>| AsrOptionView::Local(p));
    match selected_asr_of(c) {
        Some(s) => if listed.contains(s) {
            listed
        } else {
            listed.push(s)
        },
        None => listed,
    }
}

/// The speech-recognition selector's entries for the whisper files `found`
/// on disk and the current config.
pub fn asr_options(found: &Vec<String>, config: &ModelConfig) -> (v: Vec<AsrOption>)
    ensures
        asr_views(v@) == asr_options_of(path_views(found@), config@),
{
    let mut v: Vec<AsrOption> = Vec::new();
    v.push(AsrOption::Cloud(AsrChoice::OpenAi));
    v.push(AsrOption::Cloud(AsrChoice::Deepgram));
    let ghost head = seq![AsrOptionView::Cloud(AsrChoice::OpenAi), AsrOptionView::Cloud(AsrChoice::Deepgram)];
    let ghost locals = path_views(found@).map_values(|p: Seq<char>| AsrOptionView::Local(p));
    assert(asr_views(v@) =~= head);
    let mut i: usize = 0;
    while i < found.len()
        invariant
            i <= found.len(),
            locals == path_views(found@).map_values(|p: Seq<char>| AsrOptionView::Local(p)),
            asr_views(v@) == head + locals.take(i as int),
        decreases found.len() - i,
    {
        assert(path_views(found@)[i as int] == found@[i as int]@);
        assert(locals[i as int] == AsrOptionView::Local(found@[i as int]@));
        let ghost before = v@;
        let p = found[i].clone();
        assert(p@ == found@[i as int]@);
        v.push(AsrOption::Local(p));
        assert(asr_views(v@) =~= asr_views(before).push(AsrOptionView::Local(found@[i as int]@)));
        i += 1;
        assert(asr_views(v@) =~= head + locals.take(i as int));
    }
    assert(locals.take(found.len() as int) =~= locals);
    if let Some(s) = selected_asr(config) {
        let mut present = false;
        let mut j: usize = 0;
        while j < v.len()
            invariant
                j <= v.len(),
                present <==> exists|k: int| 0 <= k < j && (#[trigger] v@[k])@ == s@,
            decreases v.len() - j,
        {
            if same_asr(&v[j], &s) {
                present = true;
            }
            j += 1;
        }
        proof {
            let listed = asr_views(v@);
            if present {
                let k = choose|k: int| 0 <= k < v.len() && (#[trigger] v@[k])@ == s@;
                assert(listed[k] == s@);
            } else {
                assert forall|k: int| 0 <= k < listed.len() implies listed[k] != s@ by {
                    assert(listed[k] == v@[k]@);
                }
            }
        }
        if !present {
            let ghost before = v@;
            v.push(s);
            assert(asr_views(v@) =~= asr_views(before).push(s@));
        }
    }
    v
}

/// The refiner entry the config selects: none, a cloud refiner, or the
/// GGUF file for `LlamaLocal` (none without a model path).
pub open spec fn selected_refine_of(c: ModelConfigView) -> Option<RefineOptionView> {
    match c.refine {
        RefineChoice::Noop => Some(RefineOptionView::Raw),
        RefineChoice::OpenAi => Some(RefineOptionView::Cloud(RefineChoice::OpenAi)),
        RefineChoice::Anthropic => Some(RefineOptionView::Cloud(RefineChoice::Anthropic)),
        RefineChoice::LlamaLocal => match c.llama_model_path {
            Some(p) => Some(RefineOptionView::Local(p)),
            None => None,
        },
    }
}

/// The entry the refiner selector shows as picked.
pub fn selected_refine(config: &ModelConfig) -> (o: Option<RefineOption>)
    ensures
        match o {
            Some(x) => selected_refine_of(config@) == Some(x@),
            None => selected_refine_of(config@) is None,
        },
{
    match config.refine {
        RefineChoice::Noop => Some(RefineOption::Raw),
        RefineChoice::OpenAi => Some(RefineOption::Cloud(RefineChoice::OpenAi)),
        RefineChoice::Anthropic => Some(RefineOption::Cloud(RefineChoice::Anthropic)),
        RefineChoice::LlamaLocal => match &config.llama_model_path {
            Some(p) => Some(RefineOption::Local(p.clone())),
            None => None,
        },
    }
}

/// The config after picking `o`: none selects `Noop`, a cloud entry that
/// refiner, a local file `LlamaLocal` and that file.
pub open spec fn with_refine(c: ModelConfigView, o: RefineOptionView) -> ModelConfigView {
    match o {
        RefineOptionView::Raw => ModelConfigView { refine: RefineChoice::Noop, ..c },
        RefineOptionView::Cloud(choice) => ModelConfigView { refine: choice, ..c },
        RefineOptionView::Local(p) => ModelConfigView {
            refine: RefineChoice::LlamaLocal,
            llama_model_path: Some(p),
            ..c
        },
    }
}

/// Writes a refiner pick into the config.
pub fn apply_refine(config: &mut ModelConfig, option: &RefineOption)
    ensures
        final(config)@ == with_refine(old(config)@, option@),
{
    match option {
        RefineOption::Raw => {
            config.refine = RefineChoice::Noop;
        },
        RefineOption::Cloud(choice) => {
            config.refine = *choice;
        },
        RefineOption::Local(p) => {
            config.refine = RefineChoice::LlamaLocal;
            config.llama_model_path = Some(p.clone());
        },
    }
}

fn same_refine(a: &RefineOption, b: &RefineOption) -> (r: bool)
    ensures
        r == (a@ == b@),
{
    match (a, b) {
        (RefineOption::Raw, RefineOption::Raw) => true,
        (RefineOption::Cloud(x), RefineOption::Cloud(y)) => *x == *y,
        (RefineOption::Local(x), RefineOption::Local(y)) => str_eq(x.as_str(), y.as_str()),
        _ => false,
    }
}

/// The refiner selector's entries: none and the cloud refiners, then each
/// GGUF file found on disk, then the configured file if the scan missed it.
pub open spec fn refine_options_of(found: Seq<Seq<char>>, c: ModelConfigView) -> Seq<
    RefineOptionView,
> {
    let listed = seq![
        RefineOptionView::Raw,
        RefineOptionView::Cloud(RefineChoice::OpenAi),
        RefineOptionView::Cloud(RefineChoice::Anthropic),
    ] + found.map_values(|p: Seq<char>| RefineOptionView::Local(p));
    match selected_refine_of(c) {
        Some(s) => if listed.contains(s) {
            listed
        } else {
            listed.push(s)
        },
        None => listed,
    }
}

/// The refiner selector's entries for the GGUF files `found` on disk and
/// the current config.
pub fn refine_options(found: &Vec<String>, config: &ModelConfig) -> (v: Vec<RefineOption>)
    ensures
        refine_views(v@) == refine_options_of(path_views(found@), config@),
{
    let mut v: Vec<RefineOption> = Vec::new();
    v.push(RefineOption::Raw);
    v.push(RefineOption::Cloud(RefineChoice::OpenAi));
    v.push(RefineOption::Cloud(RefineChoice::Anthropic));
    let ghost head = seq![
        RefineOptionView::Raw,
        RefineOptionView::Cloud(RefineChoice::OpenAi),
        RefineOptionView::Cloud(RefineChoice::Anthropic),
    ];
    let ghost locals = path_views(found@).map_values(|p: Seq<char>| RefineOptionView::Local(p));
    assert(refine_views(v@) =~= head);
    let mut i: usize = 0;
    while i < found.len()
        invariant
            i <= found.len(),
            locals == path_views(found@).map_values(|p: Seq<char>| RefineOptionView::Local(p)),
            refine_views(v@) == head + locals.take(i as int),
        decreases found.len() - i,
    {
        assert(path_views(found@)[i as int] == found@[i as int]@);
        assert(locals[i as int] == RefineOptionView::Local(found@[i as int]@));
        let ghost before = v@;
        let p = found[i].clone();
        assert(p@ == found@[i as int]@);
        v.push(RefineOption::Local(p));
        assert(refine_views(v@) =~= refine_views(before).push(RefineOptionView::Local(found@[i as int]@)));
        i += 1;
        assert(refine_views(v@) =~= head + locals.take(i as int));
    }
    assert(locals.take(found.len() as int) =~= locals);
    if let Some(s) = selected_refine(config) {
        let mut present = false;
        let mut j: usize = 0;
        while j < v.len()
            invariant
                j <= v.len(),
                present <==> exists|k: int| 0 <= k < j && (#[trigger] v@[k])@ == s@,
            decreases v.len() - j,
        {
            if same_refine(&v[j], &s) {
                present = true;
            }
            j += 1;
        }
        proof {
            let listed = refine_views(v@);
            if present {
                let k = choose|k: int| 0 <= k < v.len() && (#[trigger] v@[k])@ == s@;
                assert(listed[k] == s@);
            } else {
                assert forall|k: int| 0 <= k < listed.len() implies listed[k] != s@ by {
                    assert(listed[k] == v@[k]@);
                }
            }
        }
        if !present {
            let ghost before = v@;
            v.push(s);
            assert(refine_views(v@) =~= refine_views(before).push(s@));
        }
    }
    v
}

/// The text an ASR entry shows, given the display name of its model file
/// (`local_name`, used only for a local entry).
pub open spec fn asr_option_text_of(o: AsrOptionView, local_name: Seq<char>) -> Seq<char> {
    match o {
        AsrOptionView::Local(_) => local_name + " \u{b7} local"@,
        AsrOptionView::Cloud(AsrChoice::OpenAi) => "OpenAI (cloud)"@,
        AsrOptionView::Cloud(AsrChoice::Deepgram) => "Deepgram (cloud)"@,
        AsrOptionView::Cloud(_) => "Local whisper model"@,
    }
}

/// The text an ASR entry shows in the selector.
pub fn asr_option_text(o: &AsrOption, local_name: &str) -> (t: String)
    ensures
        t@ == asr_option_text_of(o@, local_name@),
{
    match o {
        AsrOption::Local(_) => {
            let mut t = String::from_str(local_name);
            push_str(&mut t, " \u{b7} local");
            t
        },
        AsrOption::Cloud(AsrChoice::OpenAi) => String::from_str("OpenAI (cloud)"),
        AsrOption::Cloud(AsrChoice::Deepgram) => String::from_str("Deepgram (cloud)"),
        AsrOption::Cloud(_) => String::from_str("Local whisper model"),
    }
}

/// The text a refiner entry shows, given the display name of its model file
/// (`local_name`, used only for a local entry).
pub open spec fn refine_option_text_of(o: RefineOptionView, local_name: Seq<char>) -> Seq<char> {
    match o {
        RefineOptionView::Raw => "None (raw transcript)"@,
        RefineOptionView::Cloud(RefineChoice::OpenAi) => "OpenAI (cloud)"@,
        RefineOptionView::Cloud(RefineChoice::Anthropic) => "Anthropic (cloud)"@,
        RefineOptionView::Cloud(_) => "None (raw transcript)"@,
        RefineOptionView::Local(_) => local_name + " \u{b7} local"@,
    }
}

/// The text a refiner entry shows in the selector.
pub fn refine_option_text(o: &RefineOption, local_name: &str) -> (t: String)
    ensures
        t@ == refine_option_text_of(o@, local_name@),
{
    match o {
        RefineOption::Raw => String::from_str("None (raw transcript)"),
        RefineOption::Cloud(RefineChoice::OpenAi) => String::from_str("OpenAI (cloud)"),
        RefineOption::Cloud(RefineChoice::Anthropic) => String::from_str("Anthropic (cloud)"),
        RefineOption::Cloud(_) => String::from_str("None (raw transcript)"),
        RefineOption::Local(_) => {
            let mut t = String::from_str(local_name);
            push_str(&mut t, " \u{b7} local");
            t
        },
    }
}

/// Picking a local file or a cloud backend the selector offers makes it
/// the selected entry; picking a cloud backend keeps the whisper file for
/// a later switch back.
pub proof fn an_asr_pick_is_selected_back(c: ModelConfigView, o: AsrOptionView)
    requires
        !(o matches AsrOptionView::Cloud(choice) && (choice is WhisperLocal || choice is Mock)),
    ensures
        selected_asr_of(with_asr(c, o)) == Some(o),
        o is Cloud ==> with_asr(c, o).whisper_model_path == c.whisper_model_path,
{
}

/// Picking any refiner entry the selector offers makes it the selected
/// entry; picking a non-local one keeps the GGUF file.
pub proof fn a_refine_pick_is_selected_back(c: ModelConfigView, o: RefineOptionView)
    requires
        !(o matches RefineOptionView::Cloud(choice) && (choice is Noop || choice is LlamaLocal)),
    ensures
        selected_refine_of(with_refine(c, o)) == Some(o),
        !(o is Local) ==> with_refine(c, o).llama_model_path == c.llama_model_path,
{
}

/// The selector always lists the current pick, after the fixed entries it
/// opens with.
pub proof fn the_selection_is_always_listed(found: Seq<Seq<char>>, c: ModelConfigView)
    ensures
        selected_asr_of(c) matches Some(s) ==> asr_options_of(found, c).contains(s),
        asr_options_of(found, c)[0] == AsrOptionView::Cloud(AsrChoice::OpenAi),
        asr_options_of(found, c)[1] == AsrOptionView::Cloud(AsrChoice::Deepgram),
        selected_refine_of(c) matches Some(s) ==> refine_options_of(found, c).contains(s),
        refine_options_of(found, c)[0] == RefineOptionView::Raw,
        refine_options_of(found, c)[1] == RefineOptionView::Cloud(RefineChoice::OpenAi),
        refine_options_of(found, c)[2] == RefineOptionView::Cloud(RefineChoice::Anthropic),
{
    let la = seq![AsrOptionView::Cloud(AsrChoice::OpenAi), AsrOptionView::Cloud(AsrChoice::Deepgram)]
        + found.map_values(|p: Seq<char>| AsrOptionView::Local(p));
    if let Some(s) = selected_asr_of(c) {
        if !la.contains(s) {
            assert(la.push(s)[la.len() as int] == s);
        }
    }
    let lr = seq![
        RefineOptionView::Raw,
        RefineOptionView::Cloud(RefineChoice::OpenAi),
        RefineOptionView::Cloud(RefineChoice::Anthropic),
    ] + found.map_values(|p: Seq<char>| RefineOptionView::Local(p));
    if let Some(s) = selected_refine_of(c) {
        if !lr.contains(s) {
            assert(lr.push(s)[lr.len() as int] == s);
        }
    }
}

/// Every model file found on disk is offered, in scan order, right after
/// the fixed entries: the whisper files in the speech-recognition selector
/// and the GGUF files in the refiner selector. At most the configured file
/// follows them.
pub proof fn every_found_file_is_offered(found: Seq<Seq<char>>, c: ModelConfigView)
    ensures
        forall|i: int|
            0 <= i < found.len() ==> asr_options_of(found, c)[2 + i] == AsrOptionView::Local(
                #[trigger] found[i],
            ),
        forall|i: int|
            0 <= i < found.len() ==> refine_options_of(found, c)[3 + i] == RefineOptionView::Local(
                #[trigger] found[i],
            ),
        asr_options_of(found, c).len() == 2 + found.len() || asr_options_of(found, c).len() == 3
            + found.len(),
        refine_options_of(found, c).len() == 3 + found.len() || refine_options_of(found, c).len()
            == 4 + found.len(),
{
    let la = seq![AsrOptionView::Cloud(AsrChoice::OpenAi), AsrOptionView::Cloud(AsrChoice::Deepgram)]
        + found.map_values(|p: Seq<char>| AsrOptionView::Local(p));
    let lr = seq![
        RefineOptionView::Raw,
        RefineOptionView::Cloud(RefineChoice::OpenAi),
        RefineOptionView::Cloud(RefineChoice::Anthropic),
    ] + found.map_values(|p: Seq<char>| RefineOptionView::Local(p));
    assert forall|i: int| 0 <= i < found.len() implies asr_options_of(found, c)[2 + i]
        == AsrOptionView::Local(#[trigger] found[i]) by {
        assert(la[2 + i] == AsrOptionView::Local(found[i]));
        if let Some(s) = selected_asr_of(c) {
            assert(la.push(s)[2 + i] == la[2 + i]);
        }
    }
    assert forall|i: int| 0 <= i < found.len() implies refine_options_of(found, c)[3 + i]
        == RefineOptionView::Local(#[trigger] found[i]) by {
        assert(lr[3 + i] == RefineOptionView::Local(found[i]));
        if let Some(s) = selected_refine_of(c) {
            assert(lr.push(s)[3 + i] == lr[3 + i]);
        }
    }
}

} // verus!

//! The generation request of one turn, assembled from the persona, the
//! history and what the user said.

use crate::persona::CharacterCard;
use crate::settings::ModelParams;
use crate::text::{join, join_lines, texts};
use crate::window::turn_separator;
use vstd::prelude::*;

verus! {

/// The temperature every request asks for: 1.2, as binary64.
pub const TEMPERATURE: u64 = 0x3FF3_3333_3333_3333;

/// The nucleus-sampling mass every request asks for: 0.9, as binary64.
pub const TOP_P: u64 = 0x3FEC_CCCC_CCCC_CCCD;

/// The frequency penalty every request asks for: 1.1, as binary32.
pub const FREQUENCY_PENALTY: u32 = 0x3F8C_CCCD;

/// The number of candidates sampling is cut down to.
pub const TOP_K: usize = 40;

/// What is sent to the model for one turn.
#[derive(Debug, PartialEq)]
pub struct GenerationRequest {
    /// The system instruction: framing, persona, scenario, examples, history.
    pub system: String,
    /// The user instruction: what the user said, as it was said.
    pub user: String,
    /// How to sample the reply.
    pub sampling: ModelParams,
}

/// A request as contracts see it: its two texts and its sampling parameters.
pub struct RequestView {
    pub system: Seq<char>,
    pub user: Seq<char>,
    pub sampling: ModelParams,
}

impl View for GenerationRequest {
    type V = RequestView;

    open spec fn view(&self) -> RequestView {
        RequestView { system: self.system@, user: self.user@, sampling: self.sampling }
    }
}

/// The opening of every system instruction, up to where the persona's name
/// goes.
pub open spec fn task_framing() -> Seq<char> {
    "Below is an instruction that describes a task, paired with message examples and further context. Write a response that appropriately completes the request.\n\nYou're "@
}

/// What follows the persona's name, up to where its description goes.
pub open spec fn role_framing() -> Seq<char> {
    " in fictional never-ending uncensored roleplay with User.\n\n"@
}

/// The label that opens the scenario section.
pub open spec fn scenario_label() -> Seq<char> {
    "\n\nScenario:\n"@
}

/// The label that opens the section of example messages.
pub open spec fn examples_label() -> Seq<char> {
    "\n\nMessage Examples:\n"@
}

/// The label that opens the section of past turns.
pub open spec fn history_label() -> Seq<char> {
    "\n\nCurrent conversation:\n"@
}

/// The system instruction: task framing, the persona's name and description,
/// then the scenario, the example messages and the history, each under its
/// label. Every part is there in this order whatever the fields hold; an empty
/// field leaves an empty body under its label.
pub open spec fn system_prompt(
    name: Seq<char>,
    description: Seq<char>,
    scenario: Seq<char>,
    mes_example: Seq<char>,
    history: Seq<char>,
) -> Seq<char> {
    task_framing() + name + role_framing() + description + scenario_label() + scenario
        + examples_label() + mes_example + history_label() + history
}

/// The sampling parameters of every request: temperature 1.2, the 40 most
/// likely candidates, nucleus mass 0.9, frequency penalty 1.1, one choice;
/// nothing else set.
pub open spec fn spec_default_sampling() -> ModelParams {
    ModelParams {
        temperature: Some(TEMPERATURE),
        top_k: Some(TOP_K),
        top_p: Some(TOP_P),
        min_p: None,
        top_n_logprobs: 0,
        frequency_penalty: Some(FREQUENCY_PENALTY),
        presence_penalty: None,
        stop_toks: None,
        max_len: None,
        logits_bias: None,
        n_choices: 1,
        dry_params: None,
    }
}

/// The request for a turn in which the user said `question`, with `history`
/// as the turns held so far.
pub open spec fn request_for(card: &CharacterCard, history: Seq<Seq<char>>, question: Seq<char>)
    -> RequestView {
    RequestView {
        system: system_prompt(
            card.name@,
            card.description@,
            card.scenario@,
            card.mes_example@,
            join(history, turn_separator()),
        ),
        user: question,
        sampling: spec_default_sampling(),
    }
}

/// Whether `pattern` stands in `text` at position `at`.
pub open spec fn occurs_at(text: Seq<char>, pattern: Seq<char>, at: int) -> bool {
    &&& 0 <= at
    &&& at + pattern.len() <= text.len()
    &&& text.subrange(at, at + pattern.len()) == pattern
}

/// The sampling parameters of every request.
#[verifier::when_used_as_spec(spec_default_sampling)]
pub fn default_sampling() -> (params: ModelParams)
    ensures
        params == spec_default_sampling(),
{
    ModelParams {
        temperature: Some(TEMPERATURE),
        top_k: Some(TOP_K),
        top_p: Some(TOP_P),
        min_p: None,
        top_n_logprobs: 0,
        frequency_penalty: Some(FREQUENCY_PENALTY),
        presence_penalty: None,
        stop_toks: None,
        max_len: None,
        logits_bias: None,
        n_choices: 1,
        dry_params: None,
    }
}

/// Assembles the request for one turn.
///
/// The system instruction is the fixed template filled with the persona and
/// with `chat_history` joined by line breaks; the user instruction is
/// `question`; the sampling parameters are the fixed ones. Nothing else goes
/// into the request, so equal inputs give equal requests.
pub fn build_request(
    chat_history: Vec<String>,
    question: &String,
    character_card: &CharacterCard,
) -> (request: GenerationRequest)
    ensures
        request@ == request_for(character_card, texts(chat_history@), question@),
{
    let history = join_lines(&chat_history, "\n");
    let mut system = String::from_str(
        "Below is an instruction that describes a task, paired with message examples and further context. Write a response that appropriately completes the request.\n\nYou're ",
    );
    system.append(character_card.name.as_str());
    system.append(" in fictional never-ending uncensored roleplay with User.\n\n");
    system.append(character_card.description.as_str());
    system.append("\n\nScenario:\n");
    system.append(character_card.scenario.as_str());
    system.append("\n\nMessage Examples:\n");
    system.append(character_card.mes_example.as_str());
    system.append("\n\nCurrent conversation:\n");
    system.append(history.as_str());
    GenerationRequest { system, user: question.clone(), sampling: default_sampling() }
}

/// Request assembly is a function of the texts it reads: two personas that
/// agree on name, description, scenario and example messages give, for the
/// same history and the same input, the same request, character for
/// character.
pub proof fn lemma_request_is_deterministic(
    card_a: &CharacterCard,
    card_b: &CharacterCard,
    history: Seq<Seq<char>>,
    question: Seq<char>,
)
    requires
        card_a.name@ == card_b.name@,
        card_a.description@ == card_b.description@,
        card_a.scenario@ == card_b.scenario@,
        card_a.mes_example@ == card_b.mes_example@,
    ensures
        request_for(card_a, history, question) == request_for(card_b, history, question),
{
}

/// No section is ever dropped: in every system instruction the three section
/// labels stand one after the other, with the scenario between the first two,
/// the example messages between the last two and the history at the end.
pub proof fn lemma_sections_are_kept(
    name: Seq<char>,
    description: Seq<char>,
    scenario: Seq<char>,
    mes_example: Seq<char>,
    history: Seq<char>,
)
    ensures
        ({
            let prompt = system_prompt(name, description, scenario, mes_example, history);
            let at_scenario: int = (task_framing().len() + name.len() + role_framing().len()
                + description.len()) as int;
            let at_examples: int = at_scenario + scenario_label().len() + scenario.len();
            let at_history: int = at_examples + examples_label().len() + mes_example.len();
            &&& occurs_at(prompt, scenario_label(), at_scenario)
            &&& occurs_at(prompt, scenario, at_scenario + scenario_label().len())
            &&& occurs_at(prompt, examples_label(), at_examples)
            &&& occurs_at(prompt, mes_example, at_examples + examples_label().len())
            &&& occurs_at(prompt, history_label(), at_history)
            &&& occurs_at(prompt, history, at_history + history_label().len())
            &&& prompt.len() == at_history + history_label().len() + history.len()
        }),
{
    let prompt = system_prompt(name, description, scenario, mes_example, history);
    let at_scenario: int = (task_framing().len() + name.len() + role_framing().len()
        + description.len()) as int;
    let at_examples: int = at_scenario + scenario_label().len() + scenario.len();
    let at_history: int = at_examples + examples_label().len() + mes_example.len();
    assert(prompt.subrange(at_scenario, at_scenario + scenario_label().len())
        =~= scenario_label());
    assert(prompt.subrange(
        at_scenario + scenario_label().len(),
        at_scenario + scenario_label().len() + scenario.len(),
    ) =~= scenario);
    assert(prompt.subrange(at_examples, at_examples + examples_label().len())
        =~= examples_label());
    assert(prompt.subrange(
        at_examples + examples_label().len(),
        at_examples + examples_label().len() + mes_example.len(),
    ) =~= mes_example);
    assert(prompt.subrange(at_history, at_history + history_label().len())
        =~= history_label());
    assert(prompt.subrange(
        at_history + history_label().len(),
        at_history + history_label().len() + history.len(),
    ) =~= history);
}

/// With an empty scenario and no example messages the template keeps its
/// shape: the three labels follow one another directly, each with an empty
/// body before the next.
pub proof fn lemma_empty_sections_keep_their_labels(
    name: Seq<char>,
    description: Seq<char>,
    history: Seq<char>,
)
    ensures
        system_prompt(name, description, Seq::empty(), Seq::empty(), history) == task_framing()
            + name + role_framing() + description + scenario_label() + examples_label()
            + history_label() + history,
{
    let empty = Seq::<char>::empty();
    assert(task_framing() + name + role_framing() + description + scenario_label() + empty
        =~= task_framing() + name + role_framing() + description + scenario_label());
    assert(task_framing() + name + role_framing() + description + scenario_label()
        + examples_label() + empty =~= task_framing() + name + role_framing() + description
        + scenario_label() + examples_label());
}

} // verus!

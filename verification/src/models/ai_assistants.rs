//! The personas on offer, and how one is resolved from a name.
//!
//! The catalog is the list of the active personas. A persona that cannot
//! be found by its model is replaced by the first persona of the catalog,
//! and where the catalog is empty by a designated persona.

use vstd::prelude::*;
use crate::error::BotStateError;
use crate::text::same_text;

verus! {

/// The price in stars of a minute with a persona of which the catalog knows
/// no price.
pub const DEFAULT_PRICE_PER_MINUTE: u32 = 10;

/// A persona. Prices are whole stars.
#[derive(Debug, PartialEq, Eq)]
pub struct AIAssistant {
    pub id: i32,
    pub name: String,
    pub prompt: String,
    pub model: String,
    pub description: String,
    pub specialty: String,
    pub greeting: String,
    pub price_per_minute: u32,
}

/// What an `AIAssistant` holds.
pub struct AIAssistantView {
    pub id: i32,
    pub name: Seq<char>,
    pub prompt: Seq<char>,
    pub model: Seq<char>,
    pub description: Seq<char>,
    pub specialty: Seq<char>,
    pub greeting: Seq<char>,
    pub price_per_minute: u32,
}

/// How a persona was resolved.
#[derive(Debug, Clone, Copy, PartialEq, Eq, Structural)]
pub enum Resolution {
    /// The persona that was asked for.
    Found,
    /// The first persona of the catalog, in the place of the one asked for.
    FirstOfCatalog,
    /// The designated persona, in the place of the one asked for.
    Designated,
}

/// A persona and how it was resolved.
#[derive(Debug, PartialEq, Eq)]
pub struct ResolvedAssistant {
    pub assistant: AIAssistant,
    pub resolution: Resolution,
}

impl AIAssistantView {
    /// The persona that stands in where none can be resolved.
    pub open spec fn designated() -> AIAssistantView {
        AIAssistantView {
            id: 1,
            name: "Анна"@,
            prompt: "Ты помощник."@,
            model: "GigaChat-2-Max"@,
            description: "Интерактивный помощник"@,
            specialty: "Общение и поддержка"@,
            greeting: "Здравствуйте!"@,
            price_per_minute: DEFAULT_PRICE_PER_MINUTE,
        }
    }

    /// The persona that makes up the catalog where the store cannot tell
    /// which personas there are.
    pub open spec fn standard() -> AIAssistantView {
        AIAssistantView {
            id: 1,
            name: "Анна"@,
            prompt: "Ты — Анна, виртуальный помощник, ориентированный на поддержку и советы в повседневной жизни. Твоя цель — помогать пользователю разбирать задачи, давать рекомендации и задавать уточняющие вопросы, чтобы пользователь самостоятельно находил решения."@,
            model: "GigaChat-2-Max"@,
            description: "Интерактивный помощник"@,
            specialty: "Общение и поддержка в повседневных задачах"@,
            greeting: "Здравствуйте! Я Анна. Я помогу вам обсудить вопросы и получить полезные советы. Расскажите, что вас интересует?"@,
            price_per_minute: DEFAULT_PRICE_PER_MINUTE,
        }
    }

    /// The price of `duration_minutes` minutes with the persona.
    pub open spec fn price(self, duration_minutes: u32) -> int {
        self.price_per_minute * duration_minutes
    }

    /// The price in the ten-millionths of a star, as far as a `u32` holds
    /// it: a larger one is given as the largest `u32`.
    pub open spec fn fine_price(self, duration_minutes: u32) -> int {
        if self.price(duration_minutes) * 10_000_000 > u32::MAX {
            u32::MAX as int
        } else {
            self.price(duration_minutes) * 10_000_000
        }
    }
}

impl View for AIAssistant {
    type V = AIAssistantView;

    open spec fn view(&self) -> AIAssistantView {
        AIAssistantView {
            id: self.id,
            name: self.name@,
            prompt: self.prompt@,
            model: self.model@,
            description: self.description@,
            specialty: self.specialty@,
            greeting: self.greeting@,
            price_per_minute: self.price_per_minute,
        }
    }
}

impl DeepView for AIAssistant {
    type V = AIAssistantView;

    open spec fn deep_view(&self) -> AIAssistantView {
        self@
    }
}

impl Clone for AIAssistant {
    fn clone(&self) -> (copy: Self)
        ensures
            copy@ == self@,
    {
        AIAssistant {
            id: self.id,
            name: self.name.clone(),
            prompt: self.prompt.clone(),
            model: self.model.clone(),
            description: self.description.clone(),
            specialty: self.specialty.clone(),
            greeting: self.greeting.clone(),
            price_per_minute: self.price_per_minute,
        }
    }
}

/// What an optional persona holds.
pub open spec fn assistant_of(assistant: Option<AIAssistant>) -> Option<AIAssistantView> {
    match assistant {
        Some(a) => Some(a@),
        None => None,
    }
}

/// Whether the persona at the place `at` is the first of the catalog with
/// the model `model`.
pub open spec fn first_with_model(catalog: Seq<AIAssistantView>, model: Seq<char>, at: int) -> bool {
    &&& 0 <= at < catalog.len()
    &&& catalog[at].model == model
    &&& forall|i: int| 0 <= i < at ==> (#[trigger] catalog[i]).model != model
}

/// The first persona of the catalog with the model `model`, if there is
/// one.
pub open spec fn persona_by_model(catalog: Seq<AIAssistantView>, model: Seq<char>) -> Option<
    AIAssistantView,
> {
    if exists|at: int| first_with_model(catalog, model, at) {
        Some(catalog[choose|at: int| first_with_model(catalog, model, at)])
    } else {
        None
    }
}

/// Whether the persona at the place `at` is the first of the catalog with
/// the identifier `id`.
pub open spec fn first_with_id(catalog: Seq<AIAssistantView>, id: i32, at: int) -> bool {
    &&& 0 <= at < catalog.len()
    &&& catalog[at].id == id
    &&& forall|i: int| 0 <= i < at ==> (#[trigger] catalog[i]).id != id
}

/// The place of the first persona of the catalog with the identifier `id`,
/// where there is one.
pub open spec fn place_with_id(catalog: Seq<AIAssistantView>, id: i32) -> int {
    choose|at: int| first_with_id(catalog, id, at)
}

/// The first persona of the catalog with the identifier `id`, if there is
/// one.
pub open spec fn persona_by_id(catalog: Seq<AIAssistantView>, id: i32) -> Option<AIAssistantView> {
    if exists|at: int| first_with_id(catalog, id, at) {
        Some(catalog[place_with_id(catalog, id)])
    } else {
        None
    }
}

/// The persona that stands for `found`: the one found, else the first of
/// the catalog, else the designated one.
pub open spec fn resolved_persona(found: Option<AIAssistantView>, catalog: Seq<AIAssistantView>) -> (
    AIAssistantView,
    Resolution,
) {
    match found {
        Some(assistant) => (assistant, Resolution::Found),
        None => if catalog.len() > 0 {
            (catalog[0], Resolution::FirstOfCatalog)
        } else {
            (AIAssistantView::designated(), Resolution::Designated)
        },
    }
}

/// The catalog for what the store answered: its answer, or the standard
/// persona alone where it failed.
pub open spec fn offered_personas(fetched: Result<Vec<AIAssistant>, BotStateError>) -> Seq<
    AIAssistantView,
> {
    match fetched {
        Ok(catalog) => catalog.deep_view(),
        Err(_) => seq![AIAssistantView::standard()],
    }
}

/// The catalog once `assistant` has been written to it: it takes the place
/// of the first persona with its identifier, or ends the catalog.
pub open spec fn catalog_after_update(catalog: Seq<AIAssistantView>, assistant: AIAssistantView) -> Seq<
    AIAssistantView,
> {
    if exists|at: int| first_with_id(catalog, assistant.id, at) {
        catalog.update(place_with_id(catalog, assistant.id), assistant)
    } else {
        catalog.push(assistant)
    }
}

/// The catalog without the personas with the identifier `id`.
pub open spec fn catalog_after_deactivation(catalog: Seq<AIAssistantView>, id: i32) -> Seq<
    AIAssistantView,
> {
    catalog.filter(|assistant: AIAssistantView| assistant.id != id)
}

impl AIAssistant {
    /// The persona that stands in where none can be resolved.
    pub fn designated() -> (assistant: Self)
        ensures
            assistant@ == AIAssistantView::designated(),
    {
        AIAssistant {
            id: 1,
            name: "Анна".to_owned(),
            prompt: "Ты помощник.".to_owned(),
            model: "GigaChat-2-Max".to_owned(),
            description: "Интерактивный помощник".to_owned(),
            specialty: "Общение и поддержка".to_owned(),
            greeting: "Здравствуйте!".to_owned(),
            price_per_minute: DEFAULT_PRICE_PER_MINUTE,
        }
    }

    /// The persona that makes up the catalog where the store cannot tell
    /// which personas there are.
    pub fn standard() -> (assistant: Self)
        ensures
            assistant@ == AIAssistantView::standard(),
    {
        AIAssistant {
            id: 1,
            name: "Анна".to_owned(),
            prompt: "Ты — Анна, виртуальный помощник, ориентированный на поддержку и советы в повседневной жизни. Твоя цель — помогать пользователю разбирать задачи, давать рекомендации и задавать уточняющие вопросы, чтобы пользователь самостоятельно находил решения.".to_owned(),
            model: "GigaChat-2-Max".to_owned(),
            description: "Интерактивный помощник".to_owned(),
            specialty: "Общение и поддержка в повседневных задачах".to_owned(),
            greeting: "Здравствуйте! Я Анна. Я помогу вам обсудить вопросы и получить полезные советы. Расскажите, что вас интересует?".to_owned(),
            price_per_minute: DEFAULT_PRICE_PER_MINUTE,
        }
    }

    /// The catalog, from what the store answered when it was asked for the
    /// active personas.
    pub fn get_all_assistants(fetched: Result<Vec<AIAssistant>, BotStateError>) -> (catalog: Vec<
        AIAssistant,
    >)
        ensures
            catalog.deep_view() == offered_personas(fetched),
    {
        match fetched {
            Ok(catalog) => catalog,
            Err(_) => {
                let mut catalog: Vec<AIAssistant> = Vec::new();
                catalog.push(AIAssistant::standard());
                assert(catalog.deep_view() =~= seq![AIAssistantView::standard()]);
                catalog
            },
        }
    }

    /// The place of the first persona of the catalog with the model `model`.
    fn place_of_model(catalog: &Vec<AIAssistant>, model: &str) -> (place: Option<usize>)
        ensures
            place matches Some(at) ==> first_with_model(catalog.deep_view(), model@, at as int),
            place is None ==> forall|i: int|
                0 <= i < catalog.len() ==> (#[trigger] catalog.deep_view()[i]).model != model@,
    {
        let mut at: usize = 0;
        while at < catalog.len()
            invariant
                at <= catalog.len(),
                forall|i: int| 0 <= i < at ==> (#[trigger] catalog.deep_view()[i]).model != model@,
            decreases catalog.len() - at,
        {
            if same_text(catalog[at].model.as_str(), model) {
                return Some(at);
            }
            at = at + 1;
        }
        None
    }

    /// The place of the first persona of the catalog with the identifier
    /// `id`.
    fn place_of_id(catalog: &Vec<AIAssistant>, id: i32) -> (place: Option<usize>)
        ensures
            place matches Some(at) ==> first_with_id(catalog.deep_view(), id, at as int),
            place is None ==> forall|i: int|
                0 <= i < catalog.len() ==> (#[trigger] catalog.deep_view()[i]).id != id,
    {
        let mut at: usize = 0;
        while at < catalog.len()
            invariant
                at <= catalog.len(),
                forall|i: int| 0 <= i < at ==> (#[trigger] catalog.deep_view()[i]).id != id,
            decreases catalog.len() - at,
        {
            if catalog[at].id == id {
                return Some(at);
            }
            at = at + 1;
        }
        None
    }

    /// The first persona of the catalog with the model `model`.
    pub fn find_by_model_with_price(catalog: &Vec<AIAssistant>, model: &str) -> (found: Option<
        AIAssistant,
    >)
        ensures
            assistant_of(found) == persona_by_model(catalog.deep_view(), model@),
    {
        match Self::place_of_model(catalog, model) {
            Some(at) => {
                proof {
                    lemma_first_with_model(catalog.deep_view(), model@, at as int);
                }
                Some(catalog[at].clone())
            },
            None => {
                proof {
                    let views = catalog.deep_view();
                    if exists|at: int| first_with_model(views, model@, at) {
                        let at = choose|at: int| first_with_model(views, model@, at);
                        assert(views[at].model != model@);
                    }
                }
                None
            },
        }
    }

    /// The first persona of the catalog with the identifier `id`.
    pub fn find_by_id_with_price(catalog: &Vec<AIAssistant>, id: i32) -> (found: Option<AIAssistant>)
        ensures
            assistant_of(found) == persona_by_id(catalog.deep_view(), id),
    {
        match Self::place_of_id(catalog, id) {
            Some(at) => {
                proof {
                    lemma_first_with_id(catalog.deep_view(), id, at as int);
                }
                Some(catalog[at].clone())
            },
            None => {
                proof {
                    let views = catalog.deep_view();
                    if exists|at: int| first_with_id(views, id, at) {
                        let at = choose|at: int| first_with_id(views, id, at);
                        assert(views[at].id != id);
                    }
                }
                None
            },
        }
    }

    /// The first persona of the catalog with the model `model`.
    pub fn find_by_model(catalog: &Vec<AIAssistant>, model: &str) -> (found: Option<AIAssistant>)
        ensures
            assistant_of(found) == persona_by_model(catalog.deep_view(), model@),
    {
        Self::find_by_model_with_price(catalog, model)
    }

    /// The first persona of the catalog with the identifier `id`.
    pub fn find_by_id(catalog: &Vec<AIAssistant>, id: i32) -> (found: Option<AIAssistant>)
        ensures
            assistant_of(found) == persona_by_id(catalog.deep_view(), id),
    {
        Self::find_by_id_with_price(catalog, id)
    }

    /// The persona that stands for `found`: the one found, else the first
    /// of the catalog, else the designated one. The result says which.
    pub fn resolve(found: Option<AIAssistant>, catalog: &Vec<AIAssistant>) -> (resolved:
        ResolvedAssistant)
        ensures
            (resolved.assistant@, resolved.resolution) == resolved_persona(
                assistant_of(found),
                catalog.deep_view(),
            ),
    {
        match found {
            Some(assistant) => ResolvedAssistant { assistant, resolution: Resolution::Found },
            None => if catalog.len() > 0 {
                ResolvedAssistant {
                    assistant: catalog[0].clone(),
                    resolution: Resolution::FirstOfCatalog,
                }
            } else {
                ResolvedAssistant {
                    assistant: AIAssistant::designated(),
                    resolution: Resolution::Designated,
                }
            },
        }
    }

    /// The price of a minute with the persona of the model `model`: the one
    /// of the catalog, or the default price where the catalog has no such
    /// persona.
    pub fn get_consultant_price(catalog: &Vec<AIAssistant>, model: &str) -> (price: u32)
        ensures
            price == match persona_by_model(catalog.deep_view(), model@) {
                Some(assistant) => assistant.price_per_minute,
                None => DEFAULT_PRICE_PER_MINUTE,
            },
    {
        match Self::find_by_model_with_price(catalog, model) {
            Some(assistant) => assistant.price_per_minute,
            None => DEFAULT_PRICE_PER_MINUTE,
        }
    }

    /// The price of `duration_minutes` minutes with the persona: in stars,
    /// and in the ten-millionths of a star as far as a `u32` holds them.
    pub fn calculate_price(&self, duration_minutes: u32) -> (price: (u64, u32))
        ensures
            price.0 == self@.price(duration_minutes),
            price.1 == self@.fine_price(duration_minutes),
    {
        assert(0 <= self.price_per_minute * duration_minutes <= 0xffff_ffff * 0xffff_ffff)
            by (nonlinear_arith)
            requires
                0 <= self.price_per_minute <= 0xffff_ffff,
                0 <= duration_minutes <= 0xffff_ffff,
        ;
        let stars: u64 = (self.price_per_minute as u64) * (duration_minutes as u64);
        let fine: u32 = if stars > 429 {
            u32::MAX
        } else {
            (stars * 10_000_000) as u32
        };
        (stars, fine)
    }

    /// Writes `assistant` to the catalog: it takes the place of the first
    /// persona with its identifier, or ends the catalog.
    pub fn update_assistant(catalog: &mut Vec<AIAssistant>, assistant: &AIAssistant)
        ensures
            final(catalog).deep_view() == catalog_after_update(old(catalog).deep_view(), assistant@),
    {
        let ghost before = catalog.deep_view();
        match Self::place_of_id(catalog, assistant.id) {
            Some(at) => {
                proof {
                    lemma_first_with_id(before, assistant.id, at as int);
                }
                catalog.set(at, assistant.clone());
                assert(catalog.deep_view() =~= before.update(at as int, assistant@));
                assert(first_with_id(before, assistant@.id, at as int));
            },
            None => {
                proof {
                    if exists|at: int| first_with_id(before, assistant.id, at) {
                        let at = choose|at: int| first_with_id(before, assistant.id, at);
                        assert(before[at].id != assistant.id);
                    }
                }
                catalog.push(assistant.clone());
                assert(catalog.deep_view() =~= before.push(assistant@));
            },
        }
    }

    /// Takes the personas with the identifier `id` out of the catalog.
    pub fn deactivate_assistant(catalog: &mut Vec<AIAssistant>, id: i32)
        ensures
            final(catalog).deep_view() == catalog_after_deactivation(old(catalog).deep_view(), id),
    {
        let ghost before = catalog.deep_view();
        let ghost test = |assistant: AIAssistantView| assistant.id != id;
        let mut kept: Vec<AIAssistant> = Vec::new();
        let mut at: usize = 0;
        proof {
            reveal(Seq::filter);
            assert(before.take(0) =~= Seq::<AIAssistantView>::empty());
            assert(kept.deep_view() =~= before.take(0).filter(test));
        }
        while at < catalog.len()
            invariant
                at <= catalog.len(),
                catalog.deep_view() == before,
                test == (|assistant: AIAssistantView| assistant.id != id),
                kept.deep_view() == before.take(at as int).filter(test),
            decreases catalog.len() - at,
        {
            proof {
                reveal(Seq::filter);
                assert(before.take(at + 1).drop_last() =~= before.take(at as int));
                assert(before.take(at + 1).last() == before[at as int]);
            }
            let ghost so_far = kept.deep_view();
            if catalog[at].id != id {
                kept.push(catalog[at].clone());
                assert(kept.deep_view() =~= so_far.push(before[at as int]));
            }
            at = at + 1;
        }
        proof {
            assert(before.take(at as int) =~= before);
        }
        *catalog = kept;
    }
}

/// Only one place holds the first persona with a model.
pub proof fn lemma_first_with_model(catalog: Seq<AIAssistantView>, model: Seq<char>, at: int)
    requires
        first_with_model(catalog, model, at),
    ensures
        persona_by_model(catalog, model) == Some(catalog[at]),
{
    let chosen = choose|at: int| first_with_model(catalog, model, at);
    if chosen < at {
        assert(catalog[chosen].model != model);
    } else if at < chosen {
        assert(catalog[at].model != model);
    }
}

/// Only one place holds the first persona with an identifier.
pub proof fn lemma_first_with_id(catalog: Seq<AIAssistantView>, id: i32, at: int)
    requires
        first_with_id(catalog, id, at),
    ensures
        persona_by_id(catalog, id) == Some(catalog[at]),
        place_with_id(catalog, id) == at,
{
    let chosen = place_with_id(catalog, id);
    if chosen < at {
        assert(catalog[chosen].id != id);
    } else if at < chosen {
        assert(catalog[at].id != id);
    }
}

} // verus!

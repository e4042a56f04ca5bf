//! The card-definition document as it is written: a list of entities, each
//! with its tags, referenced tags, powers and entourage, every field as the
//! document gives it. Nothing here is interpreted.
//!
//! Each record has a view, which holds the same fields as mathematical values:
//! texts as sequences of characters, lists as sequences.

use vstd::prelude::*;

verus! {

/// A marker of a triggered power's history. It carries nothing.
#[derive(Debug)]
pub struct TriggeredPowerHistoryInfo {}

/// A reference to a card that belongs to the entourage of another.
#[derive(Debug)]
pub struct EntourageCard {
    /// The card that is referred to.
    pub card_id: String,
}

/// View of an [`EntourageCard`].
pub struct EntourageCardView {
    pub card_id: Seq<char>,
}

impl View for EntourageCard {
    type V = EntourageCardView;

    open spec fn view(&self) -> EntourageCardView {
        EntourageCardView { card_id: self.card_id@ }
    }
}

/// A condition on the use of a power, as written: the code of its kind and
/// its parameter as text.
#[derive(Debug)]
pub struct PlayRequirement {
    /// The code of the kind of requirement.
    pub req_id: i32,
    /// The parameter. It need not be a number.
    pub param: String,
}

/// View of a [`PlayRequirement`].
pub struct PlayRequirementView {
    pub req_id: i32,
    pub param: Seq<char>,
}

impl View for PlayRequirement {
    type V = PlayRequirementView;

    open spec fn view(&self) -> PlayRequirementView {
        PlayRequirementView { req_id: self.req_id, param: self.param@ }
    }
}

/// A power of a card, as written: the name of its definition and its play
/// requirements in document order.
#[derive(Debug)]
pub struct Power {
    /// The name of the definition of the power.
    pub definition: String,
    /// The play requirements, in document order.
    pub play_requirements: Vec<PlayRequirement>,
}

/// View of a [`Power`].
pub struct PowerView {
    pub definition: Seq<char>,
    pub play_requirements: Seq<PlayRequirementView>,
}

impl View for Power {
    type V = PowerView;

    open spec fn view(&self) -> PowerView {
        PowerView {
            definition: self.definition@,
            play_requirements: self.play_requirements@.map_values(|r: PlayRequirement| r@),
        }
    }
}

/// A tag of a card that the entity refers to, as written.
#[derive(Debug)]
pub struct ReferencedTag {
    /// The code of the kind of tag.
    pub enum_id: i32,
    /// The card that the tag points to, where it points to one.
    pub card_id: Option<String>,
    /// The name of the type of the value.
    pub value_type: String,
    /// The value, where the tag has one.
    pub value: Option<i32>,
}

/// View of a [`ReferencedTag`].
pub struct ReferencedTagView {
    pub enum_id: i32,
    pub card_id: Option<Seq<char>>,
    pub value_type: Seq<char>,
    pub value: Option<i32>,
}

impl View for ReferencedTag {
    type V = ReferencedTagView;

    open spec fn view(&self) -> ReferencedTagView {
        ReferencedTagView {
            enum_id: self.enum_id,
            card_id: self.card_id.deep_view(),
            value_type: self.value_type@,
            value: self.value,
        }
    }
}

/// A tag of the entity itself, as written, with its text in each language.
#[derive(Debug)]
pub struct Tag {
    /// The code of the kind of tag.
    pub enum_id: i32,
    /// The card that the tag points to, where it points to one.
    pub card_id: Option<String>,
    /// The name of the type of the value.
    pub value_type: String,
    /// The value, where the tag has one.
    pub value: Option<i32>,
    /// The text in German.
    pub de_de: String,
    /// The text in English (United States).
    pub en_us: String,
    /// The text in Spanish (Spain).
    pub es_es: String,
    /// The text in Spanish (Mexico).
    pub es_mx: String,
    /// The text in French.
    pub fr_fr: String,
    /// The text in Italian.
    pub it_it: String,
    /// The text in Japanese.
    pub ja_jp: String,
    /// The text in Korean.
    pub ko_kr: String,
    /// The text in Polish.
    pub pl_pl: String,
    /// The text in Portuguese (Brazil).
    pub pt_br: String,
    /// The text in Russian.
    pub ru_ru: String,
    /// The text in Thai.
    pub th_th: String,
    /// The text in Chinese (simplified).
    pub zh_cn: String,
    /// The text in Chinese (traditional).
    pub zh_tw: String,
}

/// View of a [`Tag`].
pub struct TagView {
    pub enum_id: i32,
    pub card_id: Option<Seq<char>>,
    pub value_type: Seq<char>,
    pub value: Option<i32>,
    pub de_de: Seq<char>,
    pub en_us: Seq<char>,
    pub es_es: Seq<char>,
    pub es_mx: Seq<char>,
    pub fr_fr: Seq<char>,
    pub it_it: Seq<char>,
    pub ja_jp: Seq<char>,
    pub ko_kr: Seq<char>,
    pub pl_pl: Seq<char>,
    pub pt_br: Seq<char>,
    pub ru_ru: Seq<char>,
    pub th_th: Seq<char>,
    pub zh_cn: Seq<char>,
    pub zh_tw: Seq<char>,
}

impl View for Tag {
    type V = TagView;

    open spec fn view(&self) -> TagView {
        TagView {
            enum_id: self.enum_id,
            card_id: self.card_id.deep_view(),
            value_type: self.value_type@,
            value: self.value,
            de_de: self.de_de@,
            en_us: self.en_us@,
            es_es: self.es_es@,
            es_mx: self.es_mx@,
            fr_fr: self.fr_fr@,
            it_it: self.it_it@,
            ja_jp: self.ja_jp@,
            ko_kr: self.ko_kr@,
            pl_pl: self.pl_pl@,
            pt_br: self.pt_br@,
            ru_ru: self.ru_ru@,
            th_th: self.th_th@,
            zh_cn: self.zh_cn@,
            zh_tw: self.zh_tw@,
        }
    }
}

/// An entity of the document: one card, as written.
#[derive(Debug)]
pub struct Entity {
    /// The identifier of the card.
    pub card_id: String,
    /// The number of the card in the database.
    pub id: i32,
    /// The master power of the card, where it has one.
    pub master_power: Option<String>,
    /// The tags, in document order.
    pub tags: Vec<Tag>,
    /// The referenced tags, in document order.
    pub referenced_tags: Vec<ReferencedTag>,
    /// The entourage, in document order.
    pub entourage_cards: Vec<EntourageCard>,
    /// The powers, in document order.
    pub powers: Vec<Power>,
    /// The markers of triggered powers, in document order.
    pub triggered_power_history_info: Vec<TriggeredPowerHistoryInfo>,
}

/// View of an [`Entity`].
pub struct EntityView {
    pub card_id: Seq<char>,
    pub id: i32,
    pub master_power: Option<Seq<char>>,
    pub tags: Seq<TagView>,
    pub referenced_tags: Seq<ReferencedTagView>,
    pub entourage_cards: Seq<EntourageCardView>,
    pub powers: Seq<PowerView>,
    pub triggered_power_history_info: Seq<TriggeredPowerHistoryInfo>,
}

impl View for Entity {
    type V = EntityView;

    open spec fn view(&self) -> EntityView {
        EntityView {
            card_id: self.card_id@,
            id: self.id,
            master_power: self.master_power.deep_view(),
            tags: self.tags@.map_values(|t: Tag| t@),
            referenced_tags: self.referenced_tags@.map_values(|t: ReferencedTag| t@),
            entourage_cards: self.entourage_cards@.map_values(|c: EntourageCard| c@),
            powers: self.powers@.map_values(|p: Power| p@),
            triggered_power_history_info: self.triggered_power_history_info@,
        }
    }
}

/// The whole document: its entities in document order.
#[derive(Debug)]
pub struct CardDefs {
    /// The entities, in document order.
    pub entities: Vec<Entity>,
}

/// View of a [`CardDefs`].
pub struct CardDefsView {
    pub entities: Seq<EntityView>,
}

impl View for CardDefs {
    type V = CardDefsView;

    open spec fn view(&self) -> CardDefsView {
        CardDefsView { entities: self.entities@.map_values(|e: Entity| e@) }
    }
}

/// The value of a tag: the one that is written, and 0 where none is.
pub open spec fn value_or_zero(value: Option<i32>) -> i32 {
    match value {
        Some(v) => v,
        None => 0,
    }
}

impl Tag {
    /// The code of the kind of tag.
    pub fn enum_id(&self) -> (r: i32)
        ensures
            r == self@.enum_id,
    {
        self.enum_id
    }

    /// The card that the tag points to, where it points to one.
    pub fn card_id(&self) -> (r: Option<String>)
        ensures
            r.deep_view() == self@.card_id,
    {
        self.card_id.clone()
    }

    /// The name of the type of the value.
    pub fn tag_type(&self) -> (r: String)
        ensures
            r@ == self@.value_type,
    {
        self.value_type.clone()
    }

    /// The value of the tag: the one that is written, and 0 where none is.
    pub fn tag_value(&self) -> (r: i32)
        ensures
            r == value_or_zero(self@.value),
    {
        match self.value {
            Some(v) => v,
            None => 0,
        }
    }
}

impl ReferencedTag {
    /// The code of the kind of tag.
    pub fn enum_id(&self) -> (r: i32)
        ensures
            r == self@.enum_id,
    {
        self.enum_id
    }

    /// The card that the tag points to, where it points to one.
    pub fn card_id(&self) -> (r: Option<String>)
        ensures
            r.deep_view() == self@.card_id,
    {
        self.card_id.clone()
    }

    /// The name of the type of the value.
    pub fn tag_type(&self) -> (r: String)
        ensures
            r@ == self@.value_type,
    {
        self.value_type.clone()
    }

    /// The value of the tag: the one that is written, and 0 where none is.
    pub fn tag_value(&self) -> (r: i32)
        ensures
            r == value_or_zero(self@.value),
    {
        match self.value {
            Some(v) => v,
            None => 0,
        }
    }
}

} // verus!

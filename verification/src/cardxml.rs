//! Cards, and how a card-definition document becomes a catalog of them.
//!
//! A tag record is unpacked into the kind of tag and its value; a power with
//! its play requirements is resolved into a [`Powered`]; an entity is built
//! into a [`Card`]; and [`load`] puts the cards of a document into a catalog
//! under their identifiers.

use crate::assoc::{
    has_key, lemma_to_map_dom, lemma_to_map_last_wins, lemma_to_map_push, to_map, LinearMap,
};
use crate::decimal::{parse_i32, spec_parse_i32};
use crate::enums::{GameTag, PlayReq};
use crate::raw::{
    value_or_zero, CardDefs, CardDefsView, EntourageCardView, Entity, EntityView,
    PlayRequirementView, Power, PowerView, ReferencedTag, ReferencedTagView, Tag, TagView,
};
use vstd::prelude::*;

verus! {

/// The value of a tag: a number, and the card that the tag points to where it
/// points to one.
#[derive(Debug)]
pub struct Tagged(pub i32, pub Option<String>);

/// View of a [`Tagged`].
pub struct TaggedView {
    pub value: i32,
    pub card_id: Option<Seq<char>>,
}

impl View for Tagged {
    type V = TaggedView;

    open spec fn view(&self) -> TaggedView {
        TaggedView { value: self.0, card_id: self.1.deep_view() }
    }
}

/// A tag code that is the code of no tag.
#[derive(Clone, Copy, Debug, PartialEq, Eq, Structural)]
pub struct UnknownTagCode {
    /// The code.
    pub code: i32,
}

/// What a tag record with these fields unpacks to: the tag with the code
/// `enum_id`, with the value that is written, or 0 where none is, and the
/// card reference as it is; an error where no tag has that code.
pub open spec fn spec_unpack(
    enum_id: i32,
    value: Option<i32>,
    card_id: Option<Seq<char>>,
) -> Result<(GameTag, TaggedView), UnknownTagCode> {
    match GameTag::spec_from_i32(enum_id) {
        Some(tag) => Ok((tag, TaggedView { value: value_or_zero(value), card_id })),
        None => Err(UnknownTagCode { code: enum_id }),
    }
}

/// An unpacked tag, or the error, with the value by its view.
pub open spec fn unpacked_view(r: Result<(GameTag, Tagged), UnknownTagCode>) -> Result<
    (GameTag, TaggedView),
    UnknownTagCode,
> {
    match r {
        Ok(pair) => Ok((pair.0, pair.1@)),
        Err(e) => Err(e),
    }
}

/// Unpacks the fields of a tag record into the kind of tag and its value.
///
/// Fails exactly where `enum_id` is the code of no tag, with that code.
pub fn unpack(enum_id: i32, value: Option<i32>, card_id: Option<String>) -> (r: Result<
    (GameTag, Tagged),
    UnknownTagCode,
>)
    ensures
        unpacked_view(r) == spec_unpack(enum_id, value, card_id.deep_view()),
{
    match GameTag::from_i32(enum_id) {
        Some(game_tag) => {
            let number = match value {
                Some(v) => v,
                None => 0,
            };
            Ok((game_tag, Tagged(number, card_id)))
        },
        None => Err(UnknownTagCode { code: enum_id }),
    }
}

impl TagView {
    /// What the tag unpacks to.
    pub open spec fn unpack(self) -> Result<(GameTag, TaggedView), UnknownTagCode> {
        spec_unpack(self.enum_id, self.value, self.card_id)
    }
}

impl ReferencedTagView {
    /// What the tag unpacks to.
    pub open spec fn unpack(self) -> Result<(GameTag, TaggedView), UnknownTagCode> {
        spec_unpack(self.enum_id, self.value, self.card_id)
    }
}

impl Tag {
    /// Unpacks the tag into its kind and its value. Fails exactly where its
    /// code is the code of no tag.
    pub fn unpack(&self) -> (r: Result<(GameTag, Tagged), UnknownTagCode>)
        ensures
            unpacked_view(r) == self@.unpack(),
    {
        unpack(self.enum_id(), self.value, self.card_id())
    }
}

impl ReferencedTag {
    /// Unpacks the tag into its kind and its value. Fails exactly where its
    /// code is the code of no tag.
    pub fn unpack(&self) -> (r: Result<(GameTag, Tagged), UnknownTagCode>)
        ensures
            unpacked_view(r) == self@.unpack(),
    {
        unpack(self.enum_id(), self.value, self.card_id())
    }
}

/// The tags of a card: for each kind of tag that the card has, its value.
pub type Tags = LinearMap<GameTag, Tagged>;

/// The play requirements of a power: for each kind of requirement that the
/// power has, its parameter.
pub type Requirements = LinearMap<PlayReq, i32>;

/// The powers of a card, in document order.
pub type Powers = Vec<Powered>;

/// The number that the parameter of a play requirement stands for: the one
/// that the text writes, and 0 where the text is no number.
pub open spec fn param_value(param: Seq<char>) -> i32 {
    match spec_parse_i32(param) {
        Some(n) => n,
        None => 0,
    }
}

impl PlayRequirementView {
    /// The kind of the requirement and its parameter as a number.
    pub open spec fn resolved(self) -> (PlayReq, i32) {
        (PlayReq::spec_from_i32(self.req_id).unwrap(), param_value(self.param))
    }
}

impl PowerView {
    /// The play requirements of the power, resolved, in document order.
    pub open spec fn requirement_pairs(self) -> Seq<(PlayReq, i32)> {
        self.play_requirements.map_values(|r: PlayRequirementView| r.resolved())
    }
}

/// A power of a card: the name of its definition and its play requirements.
#[derive(Debug)]
pub struct Powered {
    /// The name of the definition of the power.
    pub definition: String,
    /// The parameter of each kind of play requirement that the power has.
    pub requirements: Requirements,
}

/// View of a [`Powered`].
pub struct PoweredView {
    pub definition: Seq<char>,
    pub requirements: Map<PlayReq, i32>,
}

impl View for Powered {
    type V = PoweredView;

    open spec fn view(&self) -> PoweredView {
        PoweredView { definition: self.definition@, requirements: self.requirements@ }
    }
}

impl Powered {
    /// What a power resolves to: its definition as it is, and its play
    /// requirements inserted in document order, so that of two with the same
    /// kind the later one stays.
    pub open spec fn spec_new(data: PowerView) -> PoweredView {
        PoweredView {
            definition: data.definition,
            requirements: to_map(data.requirement_pairs()),
        }
    }

    /// Resolves a power as the document writes it.
    ///
    /// Every requirement code of `data` has to be the code of a play
    /// requirement; [`Power::unknown_code`] tells whether that holds.
    pub fn new(data: Power) -> (power: Powered)
        requires
            data@.resolves(),
        ensures
            power@ == Self::spec_new(data@),
    {
        let ghost pairs = data@.requirement_pairs();
        proof {
            data@.lemma_resolves();
        }
        let mut requirements = Requirements::new();
        let n = data.play_requirements.len();
        let mut i: usize = 0;
        assert(pairs.take(0) =~= Seq::<(PlayReq, i32)>::empty());
        while i < n
            invariant
                i <= n,
                n == data.play_requirements@.len(),
                pairs == data@.requirement_pairs(),
                forall|j: int|
                    0 <= j < n ==> PlayReq::is_known((#[trigger] data@.play_requirements[j]).req_id),
                requirements@ == to_map(pairs.take(i as int)),
            decreases n - i,
        {
            let pr = &data.play_requirements[i];
            assert(pr@ == data@.play_requirements[i as int]);
            let req = PlayReq::from_i32(pr.req_id).unwrap();
            let param = match parse_i32(pr.param.as_str()) {
                Some(number) => number,
                None => 0,
            };
            proof {
                assert(pairs[i as int] == (req, param));
                assert(pairs.take(i + 1) =~= pairs.take(i as int).push((req, param)));
                lemma_to_map_push(pairs.take(i as int), req, param);
            }
            requirements.insert(req, param);
            i = i + 1;
        }
        assert(pairs.take(n as int) =~= pairs);
        Powered { definition: data.definition, requirements }
    }
}

impl EntityView {
    /// The tags of the entity, unpacked, in document order.
    pub open spec fn tag_pairs(self) -> Seq<(GameTag, TaggedView)> {
        self.tags.map_values(|t: TagView| t.unpack().unwrap())
    }

    /// The referenced tags of the entity, unpacked, in document order.
    pub open spec fn referenced_tag_pairs(self) -> Seq<(GameTag, TaggedView)> {
        self.referenced_tags.map_values(|t: ReferencedTagView| t.unpack().unwrap())
    }
}

/// The hero power that a card with the tags `tags` has: the card that its
/// `HeroPower` tag points to, and none where it has no such tag or the tag
/// points to no card.
pub open spec fn hero_power_of(tags: Map<GameTag, TaggedView>) -> Option<Seq<char>> {
    if tags.contains_key(GameTag::HeroPower) {
        tags[GameTag::HeroPower].card_id
    } else {
        None
    }
}

/// A card.
#[derive(Debug)]
pub struct Card {
    id: String,
    dbf_id: i32,
    master_power: Option<String>,
    hero_power: Option<String>,
    tags: Tags,
    referenced_tags: Tags,
    powers: Powers,
    entourage: Vec<String>,
}

/// View of a [`Card`].
pub struct CardView {
    /// The identifier of the card.
    pub id: Seq<char>,
    /// The number of the card in the database.
    pub dbf_id: i32,
    /// The master power of the card, where it has one.
    pub master_power: Option<Seq<char>>,
    /// The hero power of the card, where it has one.
    pub hero_power: Option<Seq<char>>,
    /// The value of each kind of tag that the card has.
    pub tags: Map<GameTag, TaggedView>,
    /// The value of each kind of tag that the card has by reference.
    pub referenced_tags: Map<GameTag, TaggedView>,
    /// The powers, in document order.
    pub powers: Seq<PoweredView>,
    /// The entourage, in document order.
    pub entourage: Seq<Seq<char>>,
}

impl CardView {
    /// Whether the hero power of the card is the one that its tags give.
    pub open spec fn hero_power_is_derived(self) -> bool {
        self.hero_power == hero_power_of(self.tags)
    }
}

impl View for Card {
    type V = CardView;

    closed spec fn view(&self) -> CardView {
        CardView {
            id: self.id@,
            dbf_id: self.dbf_id,
            master_power: self.master_power.deep_view(),
            hero_power: self.hero_power.deep_view(),
            tags: self.tags@,
            referenced_tags: self.referenced_tags@,
            powers: self.powers@.map_values(|p: Powered| p@),
            entourage: self.entourage.deep_view(),
        }
    }
}

impl Card {
    #[verifier::type_invariant]
    spec fn well_formed(self) -> bool {
        self@.hero_power_is_derived()
    }

    /// The card that an entity stands for.
    ///
    /// The identifier, the database number and the master power are those of
    /// the entity. The tags and the referenced tags are unpacked and inserted
    /// in document order, each into a map of its own. The hero power is the
    /// one that the tags give. The powers are resolved one by one and the
    /// entourage is copied, both in document order.
    pub open spec fn spec_new(data: EntityView) -> CardView {
        CardView {
            id: data.card_id,
            dbf_id: data.id,
            master_power: data.master_power,
            hero_power: hero_power_of(to_map(data.tag_pairs())),
            tags: to_map(data.tag_pairs()),
            referenced_tags: to_map(data.referenced_tag_pairs()),
            powers: data.powers.map_values(|p: PowerView| Powered::spec_new(p)),
            entourage: data.entourage_cards.map_values(|c: EntourageCardView| c.card_id),
        }
    }

    /// Builds the card that an entity of the document stands for.
    ///
    /// Every tag code and every requirement code of `data` has to be known;
    /// [`Entity::unknown_code`] tells whether that holds. Whether the cards
    /// that the entity refers to exist is not looked at.
    pub fn new(data: Entity) -> (card: Card)
        requires
            data@.resolves(),
        ensures
            card@ == Self::spec_new(data@),
    {
        let ghost doc = data@;
        proof {
            doc.lemma_resolves();
        }
        let ghost tag_pairs = doc.tag_pairs();
        let mut tags = Tags::new();
        let n = data.tags.len();
        let mut i: usize = 0;
        assert(tag_pairs.take(0) =~= Seq::<(GameTag, TaggedView)>::empty());
        while i < n
            invariant
                i <= n,
                n == data.tags@.len(),
                doc == data@,
                tag_pairs == doc.tag_pairs(),
                forall|j: int| 0 <= j < n ==> GameTag::is_known((#[trigger] doc.tags[j]).enum_id),
                tags@ == to_map(tag_pairs.take(i as int)),
            decreases n - i,
        {
            assert(data.tags[i as int]@ == doc.tags[i as int]);
            let t = data.tags[i].unpack().unwrap();
            proof {
                assert(tag_pairs[i as int] == (t.0, t.1@));
                assert(tag_pairs.take(i + 1) =~= tag_pairs.take(i as int).push((t.0, t.1@)));
                lemma_to_map_push(tag_pairs.take(i as int), t.0, t.1@);
            }
            tags.insert(t.0, t.1);
            i = i + 1;
        }
        assert(tag_pairs.take(n as int) =~= tag_pairs);

        let ghost referenced_pairs = doc.referenced_tag_pairs();
        let mut referenced_tags = Tags::new();
        let n = data.referenced_tags.len();
        let mut i: usize = 0;
        assert(referenced_pairs.take(0) =~= Seq::<(GameTag, TaggedView)>::empty());
        while i < n
            invariant
                i <= n,
                n == data.referenced_tags@.len(),
                doc == data@,
                referenced_pairs == doc.referenced_tag_pairs(),
                forall|j: int|
                    0 <= j < n ==> GameTag::is_known((#[trigger] doc.referenced_tags[j]).enum_id),
                referenced_tags@ == to_map(referenced_pairs.take(i as int)),
            decreases n - i,
        {
            assert(data.referenced_tags[i as int]@ == doc.referenced_tags[i as int]);
            let t = data.referenced_tags[i].unpack().unwrap();
            proof {
                assert(referenced_pairs[i as int] == (t.0, t.1@));
                assert(referenced_pairs.take(i + 1) =~= referenced_pairs.take(i as int).push(
                    (t.0, t.1@),
                ));
                lemma_to_map_push(referenced_pairs.take(i as int), t.0, t.1@);
            }
            referenced_tags.insert(t.0, t.1);
            i = i + 1;
        }
        assert(referenced_pairs.take(n as int) =~= referenced_pairs);

        let hero_power = match tags.get(&GameTag::HeroPower) {
            Some(t) => t.1.clone(),
            None => None,
        };

        let ghost raw_powers = data.powers@;
        let mut powers = Powers::new();
        for power in it: data.powers
            invariant
                it.seq() == raw_powers,
                raw_powers.map_values(|p: Power| p@) == doc.powers,
                forall|j: int| 0 <= j < doc.powers.len() ==> (#[trigger] doc.powers[j]).resolves(),
                powers@.len() == it.index(),
                forall|j: int|
                    0 <= j < it.index() ==> (#[trigger] powers@[j])@ == Powered::spec_new(
                        doc.powers[j],
                    ),
        {
            assert(power@ == doc.powers[it.index() as int]);
            powers.push(Powered::new(power));
        }

        let ghost raw_entourage = data.entourage_cards@;
        let mut entourage: Vec<String> = Vec::new();
        for ec in it: data.entourage_cards
            invariant
                it.seq() == raw_entourage,
                entourage@.len() == it.index(),
                forall|j: int|
                    0 <= j < it.index() ==> (#[trigger] entourage@[j])@ == raw_entourage[j].card_id@,
        {
            entourage.push(ec.card_id);
        }

        let card = Card {
            id: data.card_id,
            dbf_id: data.id,
            master_power: data.master_power,
            hero_power,
            tags,
            referenced_tags,
            powers,
            entourage,
        };
        proof {
            assert(card@.powers =~= Self::spec_new(doc).powers);
            assert(card@.entourage =~= Self::spec_new(doc).entourage);
        }
        card
    }

    /// The identifier of the card.
    pub fn id(&self) -> (r: &String)
        ensures
            r@ == self@.id,
    {
        &self.id
    }

    /// The number of the card in the database.
    pub fn dbf_id(&self) -> (r: i32)
        ensures
            r == self@.dbf_id,
    {
        self.dbf_id
    }

    /// The master power of the card, where it has one.
    pub fn master_power(&self) -> (r: &Option<String>)
        ensures
            r.deep_view() == self@.master_power,
    {
        &self.master_power
    }

    /// The hero power of the card, where it has one. It is the card that the
    /// `HeroPower` tag of this card points to.
    pub fn hero_power(&self) -> (r: &Option<String>)
        ensures
            r.deep_view() == self@.hero_power,
            self@.hero_power_is_derived(),
    {
        proof {
            use_type_invariant(self);
        }
        &self.hero_power
    }

    /// The value of each kind of tag that the card has.
    pub fn tags(&self) -> (r: &Tags)
        ensures
            r@ == self@.tags,
    {
        &self.tags
    }

    /// The value of each kind of tag that the card has by reference.
    pub fn referenced_tags(&self) -> (r: &Tags)
        ensures
            r@ == self@.referenced_tags,
    {
        &self.referenced_tags
    }

    /// The powers of the card, in document order.
    pub fn powers(&self) -> (r: &Powers)
        ensures
            r@.map_values(|p: Powered| p@) == self@.powers,
    {
        &self.powers
    }

    /// The identifiers of the cards of the entourage, in document order.
    pub fn entourage(&self) -> (r: &Vec<String>)
        ensures
            r.deep_view() == self@.entourage,
    {
        &self.entourage
    }
}

/// The catalog: for each card identifier, its card.
pub type Cards = LinearMap<String, Card>;

impl CardDefsView {
    /// The cards of the document under their identifiers, in document order.
    pub open spec fn card_pairs(self) -> Seq<(Seq<char>, CardView)> {
        self.entities.map_values(|e: EntityView| (e.card_id, Card::spec_new(e)))
    }
}

/// The catalog of a document: its cards inserted under their identifiers in
/// document order, so that of two entities with the same identifier the later
/// one stays.
pub open spec fn spec_load(card_defs: CardDefsView) -> Map<Seq<char>, CardView> {
    to_map(card_defs.card_pairs())
}

/// Builds the catalog of a document: one card per card identifier.
///
/// Every tag code and every requirement code of the document has to be
/// known; [`CardDefs::unknown_code`] tells whether that holds. Where two
/// entities have the same identifier, the catalog holds the card of the later
/// one.
pub fn load(card_defs: CardDefs) -> (cards: Cards)
    requires
        card_defs@.resolves(),
    ensures
        cards@ == spec_load(card_defs@),
{
    let ghost doc = card_defs@;
    let ghost pairs = doc.card_pairs();
    proof {
        doc.lemma_resolves();
    }
    let ghost entities = card_defs.entities@;
    let mut cards = Cards::new();
    assert(pairs.take(0) =~= Seq::<(Seq<char>, CardView)>::empty());
    for entity in it: card_defs.entities
        invariant
            it.seq() == entities,
            entities.map_values(|e: Entity| e@) == doc.entities,
            pairs == doc.card_pairs(),
            forall|j: int| 0 <= j < doc.entities.len() ==> (#[trigger] doc.entities[j]).resolves(),
            cards@ == to_map(pairs.take(it.index() as int)),
    {
        let ghost i = it.index() as int;
        assert(entity@ == doc.entities[i]);
        let card = Card::new(entity);
        let key = card.id().clone();
        proof {
            assert(pairs[i] == (key@, card@));
            assert(pairs.take(i + 1) =~= pairs.take(i).push((key@, card@)));
            lemma_to_map_push(pairs.take(i), key@, card@);
        }
        cards.insert(key, card);
    }
    assert(pairs.take(pairs.len() as int) =~= pairs);
    cards
}

impl PowerView {
    /// Whether some play requirement of the power has the code `code`.
    pub open spec fn has_requirement_code(self, code: i32) -> bool {
        exists|i: int|
            0 <= i < self.play_requirements.len() && (#[trigger] self.play_requirements[i]).req_id
                == code
    }

    /// The kinds of requirement that a resolved power has are those whose
    /// codes its play requirements carry: each is a requirement of the table,
    /// and none is made up.
    pub proof fn lemma_requirement_kinds(self)
        requires
            self.resolves(),
        ensures
            forall|req: PlayReq| #[trigger]
                Powered::spec_new(self).requirements.contains_key(req)
                    <==> self.has_requirement_code(req.spec_code()),
    {
        let pairs = self.requirement_pairs();
        self.lemma_resolves();
        lemma_to_map_dom(pairs);
        assert forall|req: PlayReq| #[trigger]
            Powered::spec_new(self).requirements.contains_key(req) <==> self.has_requirement_code(
                req.spec_code(),
            ) by {
            if has_key(pairs, req) {
                let i = choose|i: int| 0 <= i < pairs.len() && (#[trigger] pairs[i]).0 == req;
                PlayReq::lemma_from_i32_code(self.play_requirements[i].req_id);
            }
            if self.has_requirement_code(req.spec_code()) {
                let i = choose|i: int|
                    0 <= i < self.play_requirements.len() && (
                    #[trigger] self.play_requirements[i]).req_id == req.spec_code();
                PlayReq::lemma_from_code(req);
                assert(pairs[i].0 == req);
            }
        }
    }

    /// Of the play requirements with one code, the last one gives the
    /// parameter that the resolved power has for that kind: the number that
    /// its text writes, and 0 where its text is no number.
    pub proof fn lemma_requirement_value(self, i: int)
        requires
            self.resolves(),
            0 <= i < self.play_requirements.len(),
            forall|j: int|
                i < j < self.play_requirements.len() ==> (#[trigger] self.play_requirements[j]).req_id
                    != self.play_requirements[i].req_id,
        ensures
            PlayReq::spec_from_i32(self.play_requirements[i].req_id) matches Some(req)
                && Powered::spec_new(self).requirements.contains_key(req) && Powered::spec_new(
                self,
            ).requirements[req] == match spec_parse_i32(self.play_requirements[i].param) {
                Some(number) => number,
                None => 0,
            },
    {
        let pairs = self.requirement_pairs();
        self.lemma_resolves();
        assert(PlayReq::is_known(self.play_requirements[i].req_id));
        assert forall|j: int| i < j < pairs.len() implies (#[trigger] pairs[j]).0 != pairs[i].0 by {
            assert(PlayReq::is_known(self.play_requirements[j].req_id));
            PlayReq::lemma_from_i32_code(self.play_requirements[j].req_id);
            PlayReq::lemma_from_i32_code(self.play_requirements[i].req_id);
        }
        lemma_to_map_last_wins(pairs, i);
    }
}

impl CardView {
    /// Where the tags of a card hold a `HeroPower` tag that points to a
    /// card, that card is the hero power; where they hold no `HeroPower` tag,
    /// the card has no hero power.
    pub proof fn lemma_hero_power(self)
        requires
            self.hero_power_is_derived(),
        ensures
            self.tags.contains_key(GameTag::HeroPower) ==> self.hero_power
                == self.tags[GameTag::HeroPower].card_id,
            !self.tags.contains_key(GameTag::HeroPower) ==> self.hero_power is None,
    {
    }
}

impl EntityView {
    /// Whether some tag of the entity has the code `code`.
    pub open spec fn has_tag_code(self, code: i32) -> bool {
        exists|i: int| 0 <= i < self.tags.len() && (#[trigger] self.tags[i]).enum_id == code
    }

    /// Whether some referenced tag of the entity has the code `code`.
    pub open spec fn has_referenced_code(self, code: i32) -> bool {
        exists|i: int|
            0 <= i < self.referenced_tags.len() && (#[trigger] self.referenced_tags[i]).enum_id
                == code
    }

    /// The kinds of tag that the card of a resolved entity has are those
    /// whose codes the tags of the entity carry, and likewise for the
    /// referenced tags: each is a tag of the table, and none is made up.
    pub proof fn lemma_tag_kinds(self)
        requires
            self.resolves(),
        ensures
            forall|tag: GameTag| #[trigger]
                Card::spec_new(self).tags.contains_key(tag) <==> self.has_tag_code(tag.spec_code()),
            forall|tag: GameTag| #[trigger]
                Card::spec_new(self).referenced_tags.contains_key(tag) <==> self.has_referenced_code(
                    tag.spec_code(),
                ),
    {
        self.lemma_resolves();
        let pairs = self.tag_pairs();
        lemma_to_map_dom(pairs);
        assert forall|tag: GameTag| #[trigger]
            Card::spec_new(self).tags.contains_key(tag) <==> self.has_tag_code(
                tag.spec_code(),
            ) by {
            if has_key(pairs, tag) {
                let i = choose|i: int| 0 <= i < pairs.len() && (#[trigger] pairs[i]).0 == tag;
                assert(GameTag::is_known(self.tags[i].enum_id));
                GameTag::lemma_from_i32_code(self.tags[i].enum_id);
            }
            if self.has_tag_code(tag.spec_code()) {
                let i = choose|i: int|
                    0 <= i < self.tags.len() && (#[trigger] self.tags[i]).enum_id
                        == tag.spec_code();
                GameTag::lemma_from_code(tag);
                assert(pairs[i].0 == tag);
            }
        }
        let referenced = self.referenced_tag_pairs();
        lemma_to_map_dom(referenced);
        assert forall|tag: GameTag| #[trigger]
            Card::spec_new(self).referenced_tags.contains_key(tag) <==> self.has_referenced_code(
                tag.spec_code(),
            ) by {
            if has_key(referenced, tag) {
                let i = choose|i: int|
                    0 <= i < referenced.len() && (#[trigger] referenced[i]).0 == tag;
                assert(GameTag::is_known(self.referenced_tags[i].enum_id));
                GameTag::lemma_from_i32_code(self.referenced_tags[i].enum_id);
            }
            if self.has_referenced_code(tag.spec_code()) {
                let i = choose|i: int|
                    0 <= i < self.referenced_tags.len() && (
                    #[trigger] self.referenced_tags[i]).enum_id == tag.spec_code();
                GameTag::lemma_from_code(tag);
                assert(referenced[i].0 == tag);
            }
        }
    }

    /// The hero power of the card of an entity is the one that the tags of
    /// that card give.
    pub proof fn lemma_hero_power_is_derived(self)
        ensures
            Card::spec_new(self).hero_power_is_derived(),
    {
    }
}

impl CardDefsView {
    /// Whether the entity at `i` is the last one of the document with its
    /// identifier.
    pub open spec fn is_last_with_id(self, i: int) -> bool {
        &&& 0 <= i < self.entities.len()
        &&& forall|j: int|
            i < j < self.entities.len() ==> (#[trigger] self.entities[j]).card_id
                != self.entities[i].card_id
    }

    /// Whether some entity of the document has the identifier `id`.
    pub open spec fn has_id(self, id: Seq<char>) -> bool {
        exists|i: int| 0 <= i < self.entities.len() && (#[trigger] self.entities[i]).card_id == id
    }

    /// The catalog has a card under each identifier of the document, and
    /// under no other.
    pub proof fn lemma_catalog_ids(self)
        ensures
            spec_load(self).dom().finite(),
            forall|id: Seq<char>| #[trigger] spec_load(self).contains_key(id) <==> self.has_id(id),
    {
        let pairs = self.card_pairs();
        lemma_to_map_dom(pairs);
        assert forall|id: Seq<char>| #[trigger]
            spec_load(self).contains_key(id) <==> self.has_id(id) by {
            if has_key(pairs, id) {
                let i = choose|i: int| 0 <= i < pairs.len() && (#[trigger] pairs[i]).0 == id;
                assert(self.entities[i].card_id == id);
            }
            if self.has_id(id) {
                let i = choose|i: int|
                    0 <= i < self.entities.len() && (#[trigger] self.entities[i]).card_id == id;
                assert(pairs[i].0 == id);
            }
        }
    }

    /// Under an identifier the catalog holds the card of the last entity of
    /// the document with that identifier.
    pub proof fn lemma_catalog_last_wins(self, i: int)
        requires
            self.is_last_with_id(i),
        ensures
            spec_load(self).contains_key(self.entities[i].card_id),
            spec_load(self)[self.entities[i].card_id] == Card::spec_new(self.entities[i]),
    {
        let pairs = self.card_pairs();
        assert forall|j: int| i < j < pairs.len() implies (#[trigger] pairs[j]).0 != pairs[i].0 by {
            assert(self.entities[j].card_id != self.entities[i].card_id);
        }
        lemma_to_map_last_wins(pairs, i);
    }

    /// The index of the last entity with the identifier `id` among the first
    /// `n` entities, and -1 where none of them has it.
    spec fn last_index_of(self, id: Seq<char>, n: int) -> int
        decreases n,
    {
        if n <= 0 {
            -1
        } else if self.entities[n - 1].card_id == id {
            n - 1
        } else {
            self.last_index_of(id, n - 1)
        }
    }

    /// `last_index_of` finds the last entity with the identifier, if there is
    /// one among the first `n`.
    proof fn lemma_last_index_of(self, id: Seq<char>, n: int)
        requires
            0 <= n <= self.entities.len(),
        ensures
            -1 <= self.last_index_of(id, n) < n,
            self.last_index_of(id, n) >= 0 ==> self.entities[self.last_index_of(id, n)].card_id
                == id,
            forall|j: int|
                self.last_index_of(id, n) < j < n ==> (#[trigger] self.entities[j]).card_id != id,
        decreases n,
    {
        if n > 0 && self.entities[n - 1].card_id != id {
            self.lemma_last_index_of(id, n - 1);
        }
    }

    /// Each card of the catalog is the card of an entity of the document: of
    /// the last one with the identifier under which the card stands.
    pub proof fn lemma_catalog_cards(self, id: Seq<char>) -> (i: int)
        requires
            spec_load(self).contains_key(id),
        ensures
            self.is_last_with_id(i),
            self.entities[i].card_id == id,
            spec_load(self)[id] == Card::spec_new(self.entities[i]),
    {
        self.lemma_catalog_ids();
        let n = self.entities.len() as int;
        let i = self.last_index_of(id, n);
        self.lemma_last_index_of(id, n);
        assert(i >= 0) by {
            // Some entity has the identifier, so the search does not come up
            // empty.
            let k = choose|k: int|
                0 <= k < self.entities.len() && (#[trigger] self.entities[k]).card_id == id;
            assert(!(i < k < n));
        }
        self.lemma_catalog_last_wins(i);
        i
    }

    /// In the catalog of a resolved document, every kind of tag of every
    /// card, and every kind of requirement of every power of it, is one of
    /// the table whose code the card's entity carries.
    pub proof fn lemma_catalog_kinds(self, id: Seq<char>) -> (i: int)
        requires
            self.resolves(),
            spec_load(self).contains_key(id),
        ensures
            0 <= i < self.entities.len(),
            self.entities[i].card_id == id,
            forall|tag: GameTag| #[trigger]
                spec_load(self)[id].tags.contains_key(tag) <==> self.entities[i].has_tag_code(
                    tag.spec_code(),
                ),
            forall|tag: GameTag| #[trigger]
                spec_load(self)[id].referenced_tags.contains_key(tag)
                    <==> self.entities[i].has_referenced_code(tag.spec_code()),
            spec_load(self)[id].powers.len() == self.entities[i].powers.len(),
            forall|p: int, req: PlayReq|
                0 <= p < self.entities[i].powers.len() ==> (#[trigger] spec_load(
                    self,
                )[id].powers[p].requirements.contains_key(req)
                    <==> self.entities[i].powers[p].has_requirement_code(req.spec_code())),
    {
        let i = self.lemma_catalog_cards(id);
        let entity = self.entities[i];
        self.lemma_resolves();
        entity.lemma_resolves();
        entity.lemma_tag_kinds();
        assert forall|p: int, req: PlayReq| 0 <= p < entity.powers.len() implies (#[trigger] spec_load(
            self,
        )[id].powers[p].requirements.contains_key(req) <==> entity.powers[p].has_requirement_code(
            req.spec_code(),
        )) by {
            entity.powers[p].lemma_requirement_kinds();
        }
        i
    }
}

/// Two documents with the same content have the same catalog: the keys are
/// the same, and under each key the cards agree in every field.
pub proof fn lemma_load_is_a_function(
    first: CardDefs,
    second: CardDefs,
    first_cards: Cards,
    second_cards: Cards,
)
    requires
        first@ == second@,
        first_cards@ == spec_load(first@),
        second_cards@ == spec_load(second@),
    ensures
        first_cards@ == second_cards@,
        first_cards@.dom() == second_cards@.dom(),
        forall|id: Seq<char>| #[trigger]
            first_cards@.contains_key(id) ==> first_cards@[id] == second_cards@[id],
{
}

} // verus!

//! Codes that the tables do not hold.
//!
//! A document can be turned into cards only if each of its tag codes is the
//! code of a tag and each of its requirement codes the code of a play
//! requirement. The functions here find the first code of a record, in
//! document order, of which that does not hold.

use crate::enums::{GameTag, PlayReq};
use crate::raw::{
    CardDefs, CardDefsView, Entity, EntityView, PlayRequirementView, Power, PowerView,
    ReferencedTagView, TagView,
};
use vstd::prelude::*;

verus! {

/// A code that stands for nothing.
#[derive(Clone, Copy, Debug, PartialEq, Eq, Structural)]
pub enum UnknownCode {
    /// A tag code that is the code of no tag.
    Tag(i32),
    /// A requirement code that is the code of no play requirement.
    Requirement(i32),
}

/// The first value that `s` holds, if it holds one.
pub open spec fn first_some<T>(s: Seq<Option<T>>) -> Option<T>
    decreases s.len(),
{
    if s.len() == 0 {
        None
    } else {
        match first_some(s.drop_last()) {
            Some(t) => Some(t),
            None => s.last(),
        }
    }
}

/// There is no first value exactly where there is no value at all.
pub proof fn lemma_first_some_none<T>(s: Seq<Option<T>>)
    ensures
        first_some(s) is None <==> forall|i: int| 0 <= i < s.len() ==> (#[trigger] s[i]) is None,
    decreases s.len(),
{
    if s.len() > 0 {
        let front = s.drop_last();
        lemma_first_some_none(front);
        if first_some(s) is None {
            assert forall|i: int| 0 <= i < s.len() implies (#[trigger] s[i]) is None by {
                if i < front.len() {
                    assert(front[i] is None);
                }
            }
        }
        if forall|i: int| 0 <= i < s.len() ==> (#[trigger] s[i]) is None {
            assert forall|i: int| 0 <= i < front.len() implies (#[trigger] front[i]) is None by {
                assert(s[i] is None);
            }
            assert(s[s.len() - 1] is None);
        }
    }
}

/// A value with no value before it is the first.
pub proof fn lemma_first_some_at<T>(s: Seq<Option<T>>, i: int)
    requires
        0 <= i < s.len(),
        s[i] is Some,
        forall|j: int| 0 <= j < i ==> (#[trigger] s[j]) is None,
    ensures
        first_some(s) == s[i],
    decreases s.len(),
{
    let front = s.drop_last();
    if i == s.len() - 1 {
        assert forall|j: int| 0 <= j < front.len() implies (#[trigger] front[j]) is None by {
            assert(s[j] is None);
        }
        lemma_first_some_none(front);
    } else {
        assert(front[i] == s[i]);
        assert forall|j: int| 0 <= j < i implies (#[trigger] front[j]) is None by {
            assert(s[j] is None);
        }
        lemma_first_some_at(front, i);
    }
}

/// `code` as an unknown tag code, if it is the code of no tag.
pub open spec fn unknown_tag(code: i32) -> Option<UnknownCode> {
    if GameTag::is_known(code) {
        None
    } else {
        Some(UnknownCode::Tag(code))
    }
}

/// `code` as an unknown requirement code, if it is the code of no play
/// requirement.
pub open spec fn unknown_requirement(code: i32) -> Option<UnknownCode> {
    if PlayReq::is_known(code) {
        None
    } else {
        Some(UnknownCode::Requirement(code))
    }
}

/// The first of `a` and `b` that holds a value.
pub open spec fn first_of<T>(a: Option<T>, b: Option<T>) -> Option<T> {
    match a {
        Some(t) => Some(t),
        None => b,
    }
}

impl PowerView {
    /// For each play requirement, its code if that code is unknown.
    pub open spec fn unknown_codes(self) -> Seq<Option<UnknownCode>> {
        self.play_requirements.map_values(|r: PlayRequirementView| unknown_requirement(r.req_id))
    }

    /// The first unknown code of the power, in document order.
    pub open spec fn unknown_code(self) -> Option<UnknownCode> {
        first_some(self.unknown_codes())
    }

    /// Whether every code of the power is known.
    pub open spec fn resolves(self) -> bool {
        self.unknown_code() is None
    }

    /// A power resolves exactly if the table holds the code of each of its
    /// play requirements.
    pub proof fn lemma_resolves(self)
        ensures
            self.resolves() <==> forall|i: int|
                0 <= i < self.play_requirements.len() ==> PlayReq::is_known(
                    (#[trigger] self.play_requirements[i]).req_id,
                ),
    {
        let codes = self.unknown_codes();
        lemma_first_some_none(codes);
        if self.resolves() {
            assert forall|i: int| 0 <= i < self.play_requirements.len() implies PlayReq::is_known(
                (#[trigger] self.play_requirements[i]).req_id,
            ) by {
                assert(codes[i] is None);
            }
        }
    }
}

impl EntityView {
    /// For each tag, its code if that code is unknown.
    pub open spec fn unknown_tag_codes(self) -> Seq<Option<UnknownCode>> {
        self.tags.map_values(|t: TagView| unknown_tag(t.enum_id))
    }

    /// For each referenced tag, its code if that code is unknown.
    pub open spec fn unknown_referenced_codes(self) -> Seq<Option<UnknownCode>> {
        self.referenced_tags.map_values(|t: ReferencedTagView| unknown_tag(t.enum_id))
    }

    /// For each power, its first unknown code.
    pub open spec fn unknown_power_codes(self) -> Seq<Option<UnknownCode>> {
        self.powers.map_values(|p: PowerView| p.unknown_code())
    }

    /// The first unknown code of the entity: of its tags, then of its
    /// referenced tags, then of its powers, each in document order.
    pub open spec fn unknown_code(self) -> Option<UnknownCode> {
        first_of(
            first_some(self.unknown_tag_codes()),
            first_of(
                first_some(self.unknown_referenced_codes()),
                first_some(self.unknown_power_codes()),
            ),
        )
    }

    /// Whether every code of the entity is known.
    pub open spec fn resolves(self) -> bool {
        self.unknown_code() is None
    }

    /// An entity resolves exactly if the tables hold the code of each of its
    /// tags and referenced tags, and each of its powers resolves.
    pub proof fn lemma_resolves(self)
        ensures
            self.resolves() <==> {
                &&& forall|i: int|
                    0 <= i < self.tags.len() ==> GameTag::is_known((#[trigger] self.tags[i]).enum_id)
                &&& forall|i: int|
                    0 <= i < self.referenced_tags.len() ==> GameTag::is_known(
                        (#[trigger] self.referenced_tags[i]).enum_id,
                    )
                &&& forall|i: int|
                    0 <= i < self.powers.len() ==> (#[trigger] self.powers[i]).resolves()
            },
    {
        let tags = self.unknown_tag_codes();
        let referenced = self.unknown_referenced_codes();
        let powers = self.unknown_power_codes();
        lemma_first_some_none(tags);
        lemma_first_some_none(referenced);
        lemma_first_some_none(powers);
        if self.resolves() {
            assert forall|i: int| 0 <= i < self.tags.len() implies GameTag::is_known(
                (#[trigger] self.tags[i]).enum_id,
            ) by {
                assert(tags[i] is None);
            }
            assert forall|i: int| 0 <= i < self.referenced_tags.len() implies GameTag::is_known(
                (#[trigger] self.referenced_tags[i]).enum_id,
            ) by {
                assert(referenced[i] is None);
            }
            assert forall|i: int| 0 <= i < self.powers.len() implies (
            #[trigger] self.powers[i]).resolves() by {
                assert(powers[i] is None);
            }
        }
    }
}

impl CardDefsView {
    /// For each entity, its first unknown code.
    pub open spec fn unknown_codes(self) -> Seq<Option<UnknownCode>> {
        self.entities.map_values(|e: EntityView| e.unknown_code())
    }

    /// The first unknown code of the document, in document order.
    pub open spec fn unknown_code(self) -> Option<UnknownCode> {
        first_some(self.unknown_codes())
    }

    /// Whether every code of the document is known.
    pub open spec fn resolves(self) -> bool {
        self.unknown_code() is None
    }

    /// A document resolves exactly if each of its entities does.
    pub proof fn lemma_resolves(self)
        ensures
            self.resolves() <==> forall|i: int|
                0 <= i < self.entities.len() ==> (#[trigger] self.entities[i]).resolves(),
    {
        let codes = self.unknown_codes();
        lemma_first_some_none(codes);
        if self.resolves() {
            assert forall|i: int| 0 <= i < self.entities.len() implies (
            #[trigger] self.entities[i]).resolves() by {
                assert(codes[i] is None);
            }
        }
    }
}

/// `code` as an unknown tag code, if it is the code of no tag.
pub fn check_tag_code(code: i32) -> (r: Option<UnknownCode>)
    ensures
        r == unknown_tag(code),
{
    match GameTag::from_i32(code) {
        Some(_) => None,
        None => Some(UnknownCode::Tag(code)),
    }
}

/// `code` as an unknown requirement code, if it is the code of no play
/// requirement.
pub fn check_requirement_code(code: i32) -> (r: Option<UnknownCode>)
    ensures
        r == unknown_requirement(code),
{
    match PlayReq::from_i32(code) {
        Some(_) => None,
        None => Some(UnknownCode::Requirement(code)),
    }
}

impl Power {
    /// The first unknown code of the power, in document order, and `None`
    /// where the power resolves.
    pub fn unknown_code(&self) -> (r: Option<UnknownCode>)
        ensures
            r == self@.unknown_code(),
    {
        let ghost codes = self@.unknown_codes();
        let n = self.play_requirements.len();
        let mut i: usize = 0;
        while i < n
            invariant
                i <= n,
                n == self.play_requirements@.len(),
                codes == self@.unknown_codes(),
                forall|j: int| 0 <= j < i ==> (#[trigger] codes[j]) is None,
            decreases n - i,
        {
            let found = check_requirement_code(self.play_requirements[i].req_id);
            assert(found == codes[i as int]);
            if found.is_some() {
                proof {
                    lemma_first_some_at(codes, i as int);
                }
                return found;
            }
            i = i + 1;
        }
        proof {
            lemma_first_some_none(codes);
        }
        None
    }
}

impl Entity {
    /// The first unknown code of the entity, and `None` where the entity
    /// resolves. Tags come first, then referenced tags, then powers, each in
    /// document order.
    pub fn unknown_code(&self) -> (r: Option<UnknownCode>)
        ensures
            r == self@.unknown_code(),
    {
        let ghost tags = self@.unknown_tag_codes();
        let n = self.tags.len();
        let mut i: usize = 0;
        while i < n
            invariant
                i <= n,
                n == self.tags@.len(),
                tags == self@.unknown_tag_codes(),
                forall|j: int| 0 <= j < i ==> (#[trigger] tags[j]) is None,
            decreases n - i,
        {
            let found = check_tag_code(self.tags[i].enum_id);
            assert(found == tags[i as int]);
            if found.is_some() {
                proof {
                    lemma_first_some_at(tags, i as int);
                }
                return found;
            }
            i = i + 1;
        }
        proof {
            lemma_first_some_none(tags);
        }
        let ghost referenced = self@.unknown_referenced_codes();
        let n = self.referenced_tags.len();
        let mut i: usize = 0;
        while i < n
            invariant
                i <= n,
                n == self.referenced_tags@.len(),
                referenced == self@.unknown_referenced_codes(),
                first_some(self@.unknown_tag_codes()) is None,
                forall|j: int| 0 <= j < i ==> (#[trigger] referenced[j]) is None,
            decreases n - i,
        {
            let found = check_tag_code(self.referenced_tags[i].enum_id);
            assert(found == referenced[i as int]);
            if found.is_some() {
                proof {
                    lemma_first_some_at(referenced, i as int);
                }
                return found;
            }
            i = i + 1;
        }
        proof {
            lemma_first_some_none(referenced);
        }
        let ghost powers = self@.unknown_power_codes();
        let n = self.powers.len();
        let mut i: usize = 0;
        while i < n
            invariant
                i <= n,
                n == self.powers@.len(),
                powers == self@.unknown_power_codes(),
                first_some(self@.unknown_tag_codes()) is None,
                first_some(self@.unknown_referenced_codes()) is None,
                forall|j: int| 0 <= j < i ==> (#[trigger] powers[j]) is None,
            decreases n - i,
        {
            let found = self.powers[i].unknown_code();
            assert(found == powers[i as int]);
            if found.is_some() {
                proof {
                    lemma_first_some_at(powers, i as int);
                }
                return found;
            }
            i = i + 1;
        }
        proof {
            lemma_first_some_none(powers);
        }
        None
    }
}

impl CardDefs {
    /// The first unknown code of the document, in document order, and `None`
    /// where the document resolves.
    pub fn unknown_code(&self) -> (r: Option<UnknownCode>)
        ensures
            r == self@.unknown_code(),
    {
        let ghost codes = self@.unknown_codes();
        let n = self.entities.len();
        let mut i: usize = 0;
        while i < n
            invariant
                i <= n,
                n == self.entities@.len(),
                codes == self@.unknown_codes(),
                forall|j: int| 0 <= j < i ==> (#[trigger] codes[j]) is None,
            decreases n - i,
        {
            let found = self.entities[i].unknown_code();
            assert(found == codes[i as int]);
            if found.is_some() {
                proof {
                    lemma_first_some_at(codes, i as int);
                }
                return found;
            }
            i = i + 1;
        }
        proof {
            lemma_first_some_none(codes);
        }
        None
    }
}

} // verus!

//! The integer state kept for each player slot of the entity list, and the
//! decisions taken on it while the list is read from the game.
use vstd::prelude::*;

use vstd::string::StringSliceAdditionalSpecFns;
use vstd::utf8::{decode_utf8, valid_utf8};

use crate::datatypes::game::{spec_weapon_from_code, WeaponId};

verus! {

/// The number of entity slots that are read.
pub const ENTITY_SLOTS: usize = 32;

/// What is known of one player slot.
#[derive(Debug)]
pub struct EntityInfo {
    /// The entity's address as stored in the list (32-bit).
    pub u32address: u32,
    /// The same address, widened.
    pub address: u64,
    /// The dormancy byte; bit 0 set means the slot holds no live player.
    pub dormant: u8,
    pub name: String,
    pub ent_info: u64,
    pub lifestate: i32,
    pub health: i32,
    pub team_num: i32,
    /// The address of the bone matrix.
    pub bone_matrix: u32,
    pub spotted_by_mask: u64,
}

/// Whether a slot is to be skipped: dormant, or not alive.
pub open spec fn is_inactive(e: EntityInfo) -> bool {
    e.dormant & 1 == 1 || e.lifestate > 0
}

/// A slot holding nothing: dormant, with a zero address, an empty name and
/// every other field zero.
pub open spec fn is_empty_slot(e: EntityInfo) -> bool {
    &&& e.u32address == 0
    &&& e.address == 0
    &&& e.dormant == 1
    &&& e.name@ == Seq::<char>::empty()
    &&& e.ent_info == 0
    &&& e.lifestate == 0
    &&& e.health == 0
    &&& e.team_num == 0
    &&& e.bone_matrix == 0
    &&& e.spotted_by_mask == 0
}

impl EntityInfo {
    /// An empty slot: dormant, everything else zero or empty.
    pub fn new() -> (res: EntityInfo)
        ensures
            res.dormant == 1,
            res.u32address == 0,
            res.address == 0,
            res.name@ == Seq::<char>::empty(),
            res.ent_info == 0,
            res.lifestate == 0,
            res.health == 0,
            res.team_num == 0,
            res.bone_matrix == 0,
            res.spotted_by_mask == 0,
    {
        EntityInfo {
            u32address: 0,
            address: 0,
            dormant: 1,
            name: String::new(),
            ent_info: 0,
            lifestate: 0,
            health: 0,
            team_num: 0,
            bone_matrix: 0,
            spotted_by_mask: 0,
        }
    }
}

/// What is known of the local player.
#[derive(Debug)]
pub struct LocalPlayer {
    pub addr32: u32,
    pub address: u64,
    pub incross: i32,
    pub dormant: u8,
    pub lifestate: i32,
    pub health: i32,
    pub team_num: i32,
    pub shots_fired: i32,
    /// The handle (after `normalize_handles`, the index) of the entity
    /// being spectated.
    pub observing_id: u64,
    /// The handle (after `normalize_handles`, the index) of the held weapon.
    pub weapon_ent_id: u32,
    pub weapon_id: WeaponId,
}

impl LocalPlayer {
    /// A local player not yet read: everything zero, no weapon.
    pub fn new() -> (res: LocalPlayer)
        ensures
            res.addr32 == 0,
            res.address == 0,
            res.incross == 0,
            res.dormant == 0,
            res.lifestate == 0,
            res.health == 0,
            res.team_num == 0,
            res.shots_fired == 0,
            res.observing_id == 0,
            res.weapon_ent_id == 0,
            res.weapon_id == WeaponId::NoWeapon,
    {
        LocalPlayer {
            addr32: 0,
            address: 0,
            incross: 0,
            dormant: 0,
            lifestate: 0,
            health: 0,
            team_num: 0,
            shots_fired: 0,
            observing_id: 0,
            weapon_ent_id: 0,
            weapon_id: WeaponId::NoWeapon,
        }
    }

    /// Whether the aiming and movement features run this frame: the local
    /// player has health left or is alive.
    pub fn is_playing(&self) -> (res: bool)
        ensures
            res == (self.health > 0 || self.lifestate == 0),
    {
        self.health > 0 || self.lifestate == 0
    }

    /// Turns the spectated-entity and weapon handles into indices (their low
    /// twelve bits). With no weapon held the weapon becomes `NoWeapon` and
    /// `None` is returned; otherwise the entity-list slot of the weapon
    /// (index less one) is returned, to be read next.
    pub fn normalize_handles(&mut self) -> (res: Option<u32>)
        ensures
            final(self).observing_id == old(self).observing_id & 0xFFF,
            final(self).weapon_ent_id == old(self).weapon_ent_id & 0xFFF,
            final(self).weapon_ent_id == 0 ==> res is None && final(self).weapon_id
                == WeaponId::NoWeapon,
            final(self).weapon_ent_id != 0 ==> res == Some((final(self).weapon_ent_id - 1) as u32)
                && final(self).weapon_id == old(self).weapon_id,
            final(self).addr32 == old(self).addr32,
            final(self).address == old(self).address,
            final(self).incross == old(self).incross,
            final(self).dormant == old(self).dormant,
            final(self).lifestate == old(self).lifestate,
            final(self).health == old(self).health,
            final(self).team_num == old(self).team_num,
            final(self).shots_fired == old(self).shots_fired,
    {
        self.observing_id = self.observing_id & 0xFFF;
        self.weapon_ent_id = self.weapon_ent_id & 0xFFF;
        if self.weapon_ent_id == 0 {
            self.weapon_id = WeaponId::NoWeapon;
            None
        } else {
            Some(self.weapon_ent_id - 1)
        }
    }

    /// Records the held weapon from the item definition index read from the
    /// weapon entity (only its low twelve bits count).
    pub fn set_weapon_from_index(&mut self, raw: u32)
        ensures
            *final(self) == (LocalPlayer { weapon_id: spec_weapon_from_code(raw & 0xFFF), ..*old(self) }),
    {
        self.weapon_id = WeaponId::from_code(raw & 0xFFF);
    }
}

/// The offset, from the client module, of entity-list slot `index`: slots
/// are sixteen bytes apart.
pub fn entity_slot_offset(entity_list: u32, index: u32) -> (res: u32)
    requires
        entity_list + 16 * index <= u32::MAX,
    ensures
        res == entity_list + 16 * index,
{
    entity_list + index * 0x10
}

/// `std::str::from_utf8`, whose documentation says it returns the bytes as
/// a string exactly when they are valid UTF-8. Claimed: the result is `Some`
/// exactly for bytes that are valid UTF-8, and then it has those bytes.
#[verifier::external_body]
fn utf8_to_str(bytes: &[u8]) -> (res: Option<&str>)
    ensures
        res is Some <==> valid_utf8(bytes@),
        res matches Some(s) ==> s.spec_bytes() == bytes@,
{
    std::str::from_utf8(bytes).ok()
}

/// The name a player-info record gives: its bytes as text when they are
/// valid UTF-8 (trailing zero bytes included), else `NO NAME`.
pub open spec fn spec_player_name(bytes: Seq<u8>) -> Seq<char> {
    if valid_utf8(bytes) {
        decode_utf8(bytes)
    } else {
        "NO NAME"@
    }
}

/// The player name held in the name bytes of a player-info record.
pub fn player_name_from_bytes(bytes: &[u8]) -> (res: String)
    ensures
        res@ == spec_player_name(bytes@),
{
    match utf8_to_str(bytes) {
        Some(s) => {
            proof {
                vstd::utf8::encode_utf8_decode_utf8(s@);
            }
            s.to_owned()
        },
        None => "NO NAME".to_owned(),
    }
}

/// The local player and the other player slots.
#[derive(Debug)]
pub struct EntityList {
    pub local_player: LocalPlayer,
    pub entities: Vec<EntityInfo>,
    /// The slot of the player closest to the crosshair, if any.
    pub closest_player: Option<usize>,
    pub names_just_updated: bool,
}

/// Whether slot `i` is read again by address this frame: every slot but the
/// local player's, once its stored address is non-zero.
pub open spec fn is_readable_slot(e: EntityInfo, i: int, local_idx: int) -> bool {
    i != local_idx && e.u32address != 0
}

/// A slot after its address is taken in: other than the local player's,
/// its address is widened, and a zero address marks it dormant.
pub open spec fn field_read_slot_state(o: EntityInfo, i: int, local_idx: int) -> EntityInfo {
    if i == local_idx {
        o
    } else if o.u32address == 0 {
        EntityInfo { address: 0, dormant: 1, ..o }
    } else {
        EntityInfo { address: o.u32address as u64, ..o }
    }
}

/// A slot other than the local player's whose address reads as zero holds no
/// player once its address is taken in: it is inactive, so it is neither
/// read further nor shown, boxed or aimed at.
pub proof fn lemma_empty_address_slot_is_inactive(
    o: EntityInfo,
    i: int,
    local_idx: int,
    local_team: int,
    observing: int,
)
    requires
        i != local_idx,
        o.u32address == 0,
    ensures
        is_inactive(field_read_slot_state(o, i, local_idx)),
        !is_bone_slot(field_read_slot_state(o, i, local_idx), i, local_idx),
        !is_radar_slot(field_read_slot_state(o, i, local_idx), i, local_idx, observing),
        !is_esp_slot(field_read_slot_state(o, i, local_idx), i, local_team, observing),
        !is_closest_candidate(field_read_slot_state(o, i, local_idx), i, local_idx),
{
    assert(1u8 & 1u8 == 1u8) by (bit_vector);
}

/// Whether the bones of slot `i` are read: an active slot other than the
/// local player's with a bone matrix.
pub open spec fn is_bone_slot(e: EntityInfo, i: int, local_idx: int) -> bool {
    i != local_idx && !is_inactive(e) && e.bone_matrix != 0
}

/// Whether slot `i` is shown on the radar: active, not the local player's,
/// someone is spectated, and it is not the spectated one (whose slot is the
/// spectated index less one).
pub open spec fn is_radar_slot(e: EntityInfo, i: int, local_idx: int, observing: int) -> bool {
    !is_inactive(e) && i != local_idx && observing != 0 && i != observing - 1
}

/// Whether slot `i` gets an overlay box: an active player of another team
/// than the local player's, while someone is spectated, and not the
/// spectated one.
pub open spec fn is_esp_slot(e: EntityInfo, i: int, local_team: int, observing: int) -> bool {
    e.team_num != local_team && !is_inactive(e) && observing != 0 && i != observing - 1
}

/// Whether slot `i` may be chosen as the player closest to the crosshair:
/// an active slot other than the local player's (visibility is not asked).
pub open spec fn is_closest_candidate(e: EntityInfo, i: int, local_idx: int) -> bool {
    i != local_idx && !is_inactive(e)
}

/// `res` lists, in increasing order, exactly the indices below `n` that
/// satisfy `pred`.
pub open spec fn lists_exactly(res: Seq<usize>, n: int, pred: spec_fn(int) -> bool) -> bool {
    &&& forall|k: int| 0 <= k < res.len() ==> 0 <= #[trigger] res[k] < n && pred(res[k] as int)
    &&& forall|k: int, m: int| 0 <= k < m < res.len() ==> res[k] < res[m]
    &&& forall|i: int| 0 <= i < n && #[trigger] pred(i) ==> res.contains(i as usize)
}

/// Extending an exact list by the next index.
pub proof fn lemma_lists_exactly_step(res: Seq<usize>, i: usize, pred: spec_fn(int) -> bool)
    requires
        lists_exactly(res, i as int, pred),
        forall|k: int| 0 <= k < res.len() ==> #[trigger] res[k] < i,
    ensures
        pred(i as int) ==> lists_exactly(res.push(i), i + 1, pred),
        !pred(i as int) ==> lists_exactly(res, i + 1, pred),
{
    if pred(i as int) {
        let r2 = res.push(i);
        assert forall|j: int| 0 <= j < i + 1 && #[trigger] pred(j) implies r2.contains(j as usize) by {
            if j < i {
                assert(res.contains(j as usize));
                let k = choose|k: int| 0 <= k < res.len() && res[k] == j as usize;
                assert(r2[k] == j as usize);
            } else {
                assert(r2[res.len() as int] == i);
            }
        }
    } else {
        assert forall|j: int| 0 <= j < i + 1 && #[trigger] pred(j) implies res.contains(j as usize) by {
            assert(j < i);
        }
    }
}

impl EntityList {
    /// An empty list: a local player with everything zero and no weapon,
    /// and `ENTITY_SLOTS` empty slots.
    pub fn new() -> (res: EntityList)
        ensures
            res.entities@.len() == ENTITY_SLOTS,
            forall|i: int| 0 <= i < ENTITY_SLOTS ==> is_empty_slot(#[trigger] res.entities@[i]),
            res.local_player == (LocalPlayer {
                addr32: 0,
                address: 0,
                incross: 0,
                dormant: 0,
                lifestate: 0,
                health: 0,
                team_num: 0,
                shots_fired: 0,
                observing_id: 0,
                weapon_ent_id: 0,
                weapon_id: WeaponId::NoWeapon,
            }),
            res.closest_player is None,
            !res.names_just_updated,
    {
        let mut entities: Vec<EntityInfo> = Vec::new();
        let mut i: usize = 0;
        while i < ENTITY_SLOTS
            invariant
                i <= ENTITY_SLOTS,
                entities@.len() == i,
                forall|k: int| 0 <= k < i ==> is_empty_slot(#[trigger] entities@[k]),
            decreases ENTITY_SLOTS - i,
        {
            entities.push(EntityInfo::new());
            i = i + 1;
        }
        EntityList {
            local_player: LocalPlayer::new(),
            entities,
            closest_player: None,
            names_just_updated: false,
        }
    }

    /// The team of slot `idx`, or `None` when the slot is dormant.
    pub fn get_team_for(&self, idx: usize) -> (res: Option<i32>)
        requires
            idx < self.entities@.len(),
        ensures
            res == (if self.entities@[idx as int].dormant & 1 == 1 {
                None::<i32>
            } else {
                Some(self.entities@[idx as int].team_num)
            }),
    {
        if self.entities[idx].dormant & 1 == 1 {
            return None;
        }
        Some(self.entities[idx].team_num)
    }

    /// Clears the stored address of every slot but the local player's, so
    /// that a slot whose address cannot be read counts as empty; returns
    /// those slots, whose addresses are to be read.
    pub fn begin_address_reads(&mut self, local_idx: usize) -> (res: Vec<usize>)
        ensures
            final(self).entities@.len() == old(self).entities@.len(),
            lists_exactly(res@, old(self).entities@.len() as int, |i: int| i != local_idx),
            forall|i: int|
                0 <= i < old(self).entities@.len() ==> #[trigger] final(self).entities@[i] == (if i
                    == local_idx {
                    old(self).entities@[i]
                } else {
                    EntityInfo { u32address: 0, ..old(self).entities@[i] }
                }),
            final(self).local_player == old(self).local_player,
            final(self).closest_player == old(self).closest_player,
            final(self).names_just_updated == old(self).names_just_updated,
    {
        let mut res: Vec<usize> = Vec::new();
        let n = self.entities.len();
        let mut i: usize = 0;
        while i < n
            invariant
                n == self.entities@.len(),
                n == old(self).entities@.len(),
                i <= n,
                self.local_player == old(self).local_player,
                self.closest_player == old(self).closest_player,
                self.names_just_updated == old(self).names_just_updated,
                lists_exactly(res@, i as int, |j: int| j != local_idx),
                forall|k: int| 0 <= k < res@.len() ==> #[trigger] res@[k] < i,
                forall|j: int|
                    0 <= j < n ==> #[trigger] self.entities@[j] == (if j < i && j != local_idx {
                        EntityInfo { u32address: 0, ..old(self).entities@[j] }
                    } else {
                        old(self).entities@[j]
                    }),
            decreases n - i,
        {
            proof {
                lemma_lists_exactly_step(res@, i, |j: int| j != local_idx);
            }
            if i != local_idx {
                self.entities[i].u32address = 0;
                res.push(i);
            }
            i = i + 1;
        }
        res
    }

    /// After the slot addresses are read: widens each slot's address, marks
    /// the slots whose address is zero as dormant, and returns the other
    /// slots (never the local player's), whose fields are to be read.
    pub fn begin_field_reads(&mut self, local_idx: usize) -> (res: Vec<usize>)
        ensures
            final(self).entities@.len() == old(self).entities@.len(),
            lists_exactly(
                res@,
                old(self).entities@.len() as int,
                |i: int| is_readable_slot(old(self).entities@[i], i, local_idx as int),
            ),
            forall|i: int|
                0 <= i < old(self).entities@.len() ==> #[trigger] final(self).entities@[i]
                    == field_read_slot_state(old(self).entities@[i], i, local_idx as int),
            forall|i: int|
                0 <= i < old(self).entities@.len() && i != local_idx
                    && old(self).entities@[i].u32address == 0 ==> is_inactive(
                    #[trigger] final(self).entities@[i],
                ),
            final(self).local_player == old(self).local_player,
            final(self).closest_player == old(self).closest_player,
            final(self).names_just_updated == old(self).names_just_updated,
    {
        let mut res: Vec<usize> = Vec::new();
        let n = self.entities.len();
        let mut i: usize = 0;
        let ghost pred = |j: int| is_readable_slot(old(self).entities@[j], j, local_idx as int);
        while i < n
            invariant
                n == self.entities@.len(),
                n == old(self).entities@.len(),
                i <= n,
                pred == (|j: int| is_readable_slot(old(self).entities@[j], j, local_idx as int)),
                self.local_player == old(self).local_player,
                self.closest_player == old(self).closest_player,
                self.names_just_updated == old(self).names_just_updated,
                lists_exactly(res@, i as int, pred),
                forall|k: int| 0 <= k < res@.len() ==> #[trigger] res@[k] < i,
                forall|j: int|
                    0 <= j < n ==> #[trigger] self.entities@[j] == (if j < i {
                        field_read_slot_state(old(self).entities@[j], j, local_idx as int)
                    } else {
                        old(self).entities@[j]
                    }),
            decreases n - i,
        {
            proof {
                lemma_lists_exactly_step(res@, i, pred);
            }
            if i != local_idx {
                let a = self.entities[i].u32address;
                self.entities[i].address = a as u64;
                if a != 0 {
                    res.push(i);
                } else {
                    self.entities[i].dormant = 1;
                }
            }
            i = i + 1;
        }
        assert(1u8 & 1u8 == 1u8) by (bit_vector);
        res
    }

    /// After the fields are read: marks every inactive slot (dormant or not
    /// alive) as dormant, and returns the active slots other than the local
    /// player's that have a bone matrix, whose bones are to be read.
    pub fn begin_bone_reads(&mut self, local_idx: usize) -> (res: Vec<usize>)
        ensures
            final(self).entities@.len() == old(self).entities@.len(),
            lists_exactly(
                res@,
                old(self).entities@.len() as int,
                |i: int| is_bone_slot(old(self).entities@[i], i, local_idx as int),
            ),
            forall|i: int|
                0 <= i < old(self).entities@.len() ==> #[trigger] final(self).entities@[i] == (if i
                    != local_idx && is_inactive(old(self).entities@[i]) {
                    EntityInfo { dormant: 1, ..old(self).entities@[i] }
                } else {
                    old(self).entities@[i]
                }),
            final(self).local_player == old(self).local_player,
            final(self).closest_player == old(self).closest_player,
            final(self).names_just_updated == old(self).names_just_updated,
    {
        let mut res: Vec<usize> = Vec::new();
        let n = self.entities.len();
        let mut i: usize = 0;
        let ghost pred = |j: int| is_bone_slot(old(self).entities@[j], j, local_idx as int);
        while i < n
            invariant
                n == self.entities@.len(),
                n == old(self).entities@.len(),
                i <= n,
                pred == (|j: int| is_bone_slot(old(self).entities@[j], j, local_idx as int)),
                self.local_player == old(self).local_player,
                self.closest_player == old(self).closest_player,
                self.names_just_updated == old(self).names_just_updated,
                lists_exactly(res@, i as int, pred),
                forall|k: int| 0 <= k < res@.len() ==> #[trigger] res@[k] < i,
                forall|j: int|
                    0 <= j < n ==> #[trigger] self.entities@[j] == (if j < i && j != local_idx
                        && is_inactive(old(self).entities@[j]) {
                        EntityInfo { dormant: 1, ..old(self).entities@[j] }
                    } else {
                        old(self).entities@[j]
                    }),
            decreases n - i,
        {
            proof {
                lemma_lists_exactly_step(res@, i, pred);
            }
            if i != local_idx {
                if self.entities[i].dormant & 1 == 1 || self.entities[i].lifestate > 0 {
                    self.entities[i].dormant = 1;
                } else if self.entities[i].bone_matrix != 0 {
                    res.push(i);
                }
            }
            i = i + 1;
        }
        res
    }

    /// The slots shown on the radar: active, not the local player's, and
    /// not the one being spectated; nothing while no one is spectated.
    pub fn radar_slots(&self, local_idx: usize) -> (res: Vec<usize>)
        ensures
            lists_exactly(
                res@,
                self.entities@.len() as int,
                |i: int| is_radar_slot(self.entities@[i], i, local_idx as int, self.local_player.observing_id as int),
            ),
    {
        let mut res: Vec<usize> = Vec::new();
        let n = self.entities.len();
        let obs = self.local_player.observing_id;
        let mut i: usize = 0;
        let ghost pred = |j: int| is_radar_slot(self.entities@[j], j, local_idx as int, obs as int);
        while i < n
            invariant
                n == self.entities@.len(),
                obs == self.local_player.observing_id,
                i <= n,
                pred == (|j: int| is_radar_slot(self.entities@[j], j, local_idx as int, obs as int)),
                lists_exactly(res@, i as int, pred),
                forall|k: int| 0 <= k < res@.len() ==> #[trigger] res@[k] < i,
            decreases n - i,
        {
            proof {
                lemma_lists_exactly_step(res@, i, pred);
            }
            let e = &self.entities[i];
            let inactive = e.dormant & 1 == 1 || e.lifestate > 0;
            if !inactive && i != local_idx && obs != 0 && (i as u64) != obs - 1 {
                res.push(i);
            }
            i = i + 1;
        }
        res
    }

    /// The slots that get an overlay box: active players of the other team,
    /// not the one being spectated; nothing while no one is spectated.
    pub fn esp_slots(&self) -> (res: Vec<usize>)
        ensures
            lists_exactly(
                res@,
                self.entities@.len() as int,
                |i: int|
                    is_esp_slot(
                        self.entities@[i],
                        i,
                        self.local_player.team_num as int,
                        self.local_player.observing_id as int,
                    ),
            ),
    {
        let mut res: Vec<usize> = Vec::new();
        let n = self.entities.len();
        let obs = self.local_player.observing_id;
        let team = self.local_player.team_num;
        let mut i: usize = 0;
        let ghost pred = |j: int| is_esp_slot(self.entities@[j], j, team as int, obs as int);
        while i < n
            invariant
                n == self.entities@.len(),
                obs == self.local_player.observing_id,
                team == self.local_player.team_num,
                i <= n,
                pred == (|j: int| is_esp_slot(self.entities@[j], j, team as int, obs as int)),
                lists_exactly(res@, i as int, pred),
                forall|k: int| 0 <= k < res@.len() ==> #[trigger] res@[k] < i,
            decreases n - i,
        {
            proof {
                lemma_lists_exactly_step(res@, i, pred);
            }
            let e = &self.entities[i];
            let inactive = e.dormant & 1 == 1 || e.lifestate > 0;
            if e.team_num != team && !inactive && obs != 0 && (i as u64) != obs - 1 {
                res.push(i);
            }
            i = i + 1;
        }
        res
    }

    /// The slots among which the player closest to the crosshair is chosen:
    /// the active slots other than the local player's.
    pub fn closest_candidates(&self, local_idx: usize) -> (res: Vec<usize>)
        ensures
            lists_exactly(
                res@,
                self.entities@.len() as int,
                |i: int| is_closest_candidate(self.entities@[i], i, local_idx as int),
            ),
    {
        let mut res: Vec<usize> = Vec::new();
        let n = self.entities.len();
        let mut i: usize = 0;
        let ghost pred = |j: int| is_closest_candidate(self.entities@[j], j, local_idx as int);
        while i < n
            invariant
                n == self.entities@.len(),
                i <= n,
                pred == (|j: int| is_closest_candidate(self.entities@[j], j, local_idx as int)),
                lists_exactly(res@, i as int, pred),
                forall|k: int| 0 <= k < res@.len() ==> #[trigger] res@[k] < i,
            decreases n - i,
        {
            proof {
                lemma_lists_exactly_step(res@, i, pred);
            }
            let e = &self.entities[i];
            let inactive = e.dormant & 1 == 1 || e.lifestate > 0;
            if i != local_idx && !inactive {
                res.push(i);
            }
            i = i + 1;
        }
        res
    }
}

} // verus!

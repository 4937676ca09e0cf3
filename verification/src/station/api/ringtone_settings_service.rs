//! The ringtone settings offered to the user interface.
use vstd::prelude::*;

use crate::station::state::ringtone::{
    chosen_id, is_entry_name, unassigned_ringtone, RingtoneError, RingtoneItemView, RingtoneManager,
};

verus! {

/// A ringtone as the user interface lists it.
pub struct RingtoneData {
    pub id: i32,
    pub formatted_name: String,
    pub path: String,
}

/// `v` lists the ringtones `rs` in order.
pub open spec fn lists_ringtones(v: Seq<RingtoneData>, rs: Seq<RingtoneItemView>) -> bool {
    &&& v.len() == rs.len()
    &&& forall|k: int|
        0 <= k < v.len() ==> (#[trigger] v[k]).id == rs[k].id && v[k].formatted_name@ == rs[k].name && v[k].path@
            == rs[k].path
}

/// The ringtone settings service over the station's ringtones.
pub struct RingtoneSettingsService {
    ringtone_manager: RingtoneManager,
}

impl RingtoneSettingsService {
    pub closed spec fn manager(&self) -> RingtoneManager {
        self.ringtone_manager
    }

    pub fn new(ringtone_manager: RingtoneManager) -> (r: Self)
        ensures
            r.manager() == ringtone_manager,
    {
        RingtoneSettingsService { ringtone_manager }
    }

    /// The ringtones, for playing the chosen one and writing the choice back to disk.
    pub fn ringtone_manager(&self) -> (r: &RingtoneManager)
        ensures
            *r == self.manager(),
    {
        &self.ringtone_manager
    }

    /// The choices: "Unassigned" first, then every ringtone.
    pub fn get_ringtone_model(&self) -> (r: Vec<RingtoneData>)
        ensures
            lists_ringtones(r@, seq![unassigned_ringtone()] + self.manager().ringtones()),
    {
        let items = self.ringtone_manager.get_ringtone_model();
        let ghost rs = seq![unassigned_ringtone()] + self.manager().ringtones();
        let mut r: Vec<RingtoneData> = Vec::new();
        let mut i: usize = 0;
        while i < items.len()
            invariant
                i <= items@.len(),
                items@.len() == rs.len(),
                forall|k: int| 0 <= k < items@.len() ==> (#[trigger] items@[k])@ == rs[k],
                r@.len() == i,
                forall|k: int|
                    0 <= k < i ==> (#[trigger] r@[k]).id == rs[k].id && r@[k].formatted_name@ == rs[k].name
                        && r@[k].path@ == rs[k].path,
            decreases items@.len() - i,
        {
            let item = &items[i];
            r.push(
                RingtoneData {
                    id: item.ringtone_id,
                    formatted_name: item.ringtone_name.clone(),
                    path: item.ringtone_path.clone(),
                },
            );
            i = i + 1;
        }
        r
    }

    /// The id of the chosen ringtone; `-1` when none is chosen.
    pub fn get_ringtone_id(&self) -> (r: i32)
        ensures
            r == chosen_id(self.manager().choice(), self.manager().ringtones()),
    {
        self.ringtone_manager.get_ringtone_id()
    }

    /// Lists the ringtones anew from the directory entries `dir_entries`
    /// (`None` when the directory does not exist), then chooses ringtone `id`
    /// (`-1` for none).
    pub fn set_ringtone_id(&mut self, id: i32, dir_entries: Option<Vec<String>>) -> (r: Result<(), RingtoneError>)
        requires
            dir_entries matches Some(es) ==> forall|k: int| 0 <= k < es@.len() ==> is_entry_name(#[trigger] es@[k]@),
        ensures
            old(self).manager().chose_ringtone(&final(self).manager(), id, dir_entries, r),
    {
        self.ringtone_manager.set_ringtone_id(id, dir_entries)
    }
}

} // verus!

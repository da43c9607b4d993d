//! Peripherals seen in a scan, and the operator's choice among them.
use vstd::prelude::*;

verus! {

/// A peripheral as a scan reports it: its hardware address (48 bits held in a
/// `u64`) and its local name, when it advertises one.
pub struct PeripheralInfo {
    pub address: u64,
    pub local_name: Option<String>,
}

/// What an operator sees for a peripheral: its local name, or a placeholder.
pub open spec fn label_of(p: PeripheralInfo) -> Seq<char> {
    match p.local_name {
        Some(name) => name@,
        None => "(Empty)"@,
    }
}

/// Recognises the first peripheral of `list` with address `address`.
pub open spec fn is_first_with_address(list: Seq<PeripheralInfo>, address: u64, i: int) -> bool {
    &&& 0 <= i < list.len()
    &&& list[i].address == address
    &&& forall|j: int| 0 <= j < i ==> list[j].address != address
}

/// The label of a peripheral in a selection menu.
pub fn display_label(p: &PeripheralInfo) -> (r: String)
    ensures
        r@ == label_of(*p),
{
    match &p.local_name {
        Some(name) => name.clone(),
        None => String::from_str("(Empty)"),
    }
}

/// Finds the first peripheral of `list` whose address is `address`.
pub fn find_by_address(list: &Vec<PeripheralInfo>, address: u64) -> (r: Option<usize>)
    ensures
        r matches Some(i) ==> is_first_with_address(list@, address, i as int),
        r is None <==> forall|j: int| 0 <= j < list@.len() ==> list@[j].address != address,
{
    let mut i: usize = 0;
    while i < list.len()
        invariant
            i <= list@.len(),
            forall|j: int| 0 <= j < i ==> list@[j].address != address,
        decreases list@.len() - i,
    {
        if list[i].address == address {
            return Some(i);
        }
        i = i + 1;
    }
    None
}

/// The entry of a selection menu that asks for another scan.
pub open spec fn scan_again_label() -> Seq<char> {
    "[Scan again]"@
}

/// The selection menu for a scan: "[Scan again]" first, then one label per
/// peripheral, in the order of the scan.
pub fn selection_labels(list: &Vec<PeripheralInfo>) -> (r: Vec<String>)
    ensures
        r@.len() == list@.len() + 1,
        r@[0]@ == scan_again_label(),
        forall|i: int| 0 <= i < list@.len() ==> #[trigger] r@[i + 1]@ == label_of(list@[i]),
{
    let mut labels: Vec<String> = Vec::new();
    labels.push(String::from_str("[Scan again]"));
    let mut i: usize = 0;
    while i < list.len()
        invariant
            i <= list@.len(),
            labels@.len() == i + 1,
            labels@[0]@ == scan_again_label(),
            forall|j: int| 0 <= j < i ==> #[trigger] labels@[j + 1]@ == label_of(list@[j]),
        decreases list@.len() - i,
    {
        let label = display_label(&list[i]);
        labels.push(label);
        i = i + 1;
    }
    labels
}

/// Which peripheral a menu entry stands for, out of `count`: none for the
/// "[Scan again]" entry or an entry past the end, which both call for a rescan.
pub open spec fn chosen_index(count: nat, entry: nat) -> Option<nat> {
    if entry == 0 || entry > count {
        None
    } else {
        Some((entry - 1) as nat)
    }
}

/// Interprets the menu entry that the operator picked among `count` peripherals.
pub fn interpret_selection(count: usize, entry: usize) -> (r: Option<usize>)
    ensures
        r matches Some(i) ==> chosen_index(count as nat, entry as nat) == Some(i as nat),
        r is None ==> chosen_index(count as nat, entry as nat) is None,
{
    if entry == 0 || entry > count {
        None
    } else {
        Some(entry - 1)
    }
}

} // verus!

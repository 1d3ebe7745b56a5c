use std::cell::RefCell;
use std::rc::Rc;
use std::collections::BTreeSet;

use benten_engine::cid::Cid;
use benten_engine::ivm_view_read_gate::{CapRecheck, DenyAll, IvmViewReadGate, PrincipalId};

fn principal_for(label: &str) -> PrincipalId {
    PrincipalId::from_actor_cid(Cid::from_blake3_digest(*blake3::hash(label.as_bytes()).as_bytes()))
}

fn cid_for_label(label: &str, idx: u64) -> Cid {
    let mut bytes = label.as_bytes().to_vec();
    bytes.extend_from_slice(&idx.to_be_bytes());
    Cid::from_blake3_digest(*blake3::hash(&bytes).as_bytes())
}

struct PublicOnly {
    public: BTreeSet<Cid>,
}

impl CapRecheck for PublicOnly {
    fn permits(&self, _principal: PrincipalId, _label_hint: String, row_cid: Cid) -> bool {
        self.public.contains(&row_cid)
    }

    fn recheck(&self, _principal: &PrincipalId, _label_hint: &String, row_cid: &Cid) -> bool {
        self.public.contains(row_cid)
    }
}

struct Recording {
    observed: Rc<RefCell<Vec<(Cid, String)>>>,
}

impl CapRecheck for Recording {
    fn permits(&self, _principal: PrincipalId, _label_hint: String, _row_cid: Cid) -> bool {
        true
    }

    fn recheck(&self, _principal: &PrincipalId, label_hint: &String, row_cid: &Cid) -> bool {
        self.observed
            .borrow_mut()
            .push((*row_cid, label_hint.to_string()));
        true
    }
}

#[test]
fn allow_all_gate_admits_every_row() {
    let gate = IvmViewReadGate::allow_all_for(principal_for("alice"), "post");
    let rows = vec![
        cid_for_label("post", 1),
        cid_for_label("post", 2),
        cid_for_label("post", 3),
    ];
    let admitted = gate.filter_rows(rows.clone());
    assert_eq!(admitted, rows, "allow_all admits every row");
}

#[test]
fn deny_all_gate_admits_no_rows() {
    let gate = IvmViewReadGate::new(principal_for("alice"), "post", DenyAll);
    let rows = vec![cid_for_label("post", 1), cid_for_label("post", 2)];
    let admitted = gate.filter_rows(rows);
    assert!(admitted.is_empty(), "deny_all admits no rows");
}

#[test]
fn per_row_gate_fires_against_actor_cap_set_compromise_11_closure() {
    let public_rows: Vec<Cid> = (0..50).map(|i| cid_for_label("post:public", i)).collect();
    let private_rows: Vec<Cid> = (0..50).map(|i| cid_for_label("post:private", i)).collect();
    let public_set: BTreeSet<Cid> = public_rows.iter().copied().collect();
    let gate = IvmViewReadGate::new(
        principal_for("alice"),
        "post",
        PublicOnly {
            public: public_set.clone(),
        },
    );
    let mut all_rows = Vec::with_capacity(100);
    all_rows.extend(public_rows.iter().copied());
    all_rows.extend(private_rows.iter().copied());
    let admitted = gate.filter_rows(all_rows);
    assert_eq!(admitted.len(), 50, "per-row gate yields 50 (not 0, not 100)");
    for cid in &admitted {
        assert!(public_set.contains(cid), "every admitted row is in the public set");
    }
}

#[test]
fn admits_consults_cap_recheck_with_label_hint_and_principal() {
    let observed: Rc<RefCell<Vec<(Cid, String)>>> = Rc::new(RefCell::new(Vec::new()));
    let gate = IvmViewReadGate::new(
        principal_for("alice"),
        "post",
        Recording {
            observed: Rc::clone(&observed),
        },
    );
    let rows = vec![cid_for_label("post", 1), cid_for_label("post", 2)];
    let _ = gate.filter_rows(rows.clone());
    let log = observed.borrow();
    assert_eq!(log.len(), 2, "closure called once per row");
    for (_, zone) in log.iter() {
        assert_eq!(zone, "post", "label_hint threaded into cap-recheck");
    }
    assert_eq!(gate.label_hint(), "post");
    assert_eq!(*gate.principal(), principal_for("alice"));
}

#[test]
fn filter_keeps_order_of_admitted_rows() {
    let keep: BTreeSet<Cid> = [cid_for_label("post", 3), cid_for_label("post", 1)]
        .into_iter()
        .collect();
    let gate = IvmViewReadGate::new(principal_for("bob"), "post", PublicOnly { public: keep });
    let rows = vec![
        cid_for_label("post", 1),
        cid_for_label("post", 2),
        cid_for_label("post", 3),
    ];
    assert_eq!(
        gate.filter_rows(rows),
        vec![cid_for_label("post", 1), cid_for_label("post", 3)]
    );
}

use plant_telemetry::tagmap::{MappingEntry, TagMap};

fn mapping(pairs: &[(&str, &str)]) -> TagMap {
    TagMap::from_entries(
        pairs
            .iter()
            .map(|(ext, tag)| MappingEntry {
                external_id: ext.to_string(),
                scada_tag_candidate: tag.to_string(),
            })
            .collect(),
    )
}

#[test]
fn a_known_tag_resolves_to_its_external_id() {
    let map = mapping(&[("EQ-PUMP-1", "ns=2;s=P1"), ("EQ-VALVE-2", "ns=2;s=V2")]);
    assert_eq!(map.lookup(&"ns=2;s=P1".to_string()), Some("EQ-PUMP-1".to_string()));
    assert_eq!(map.lookup(&"ns=2;s=V2".to_string()), Some("EQ-VALVE-2".to_string()));
}

#[test]
fn an_unknown_tag_resolves_to_nothing() {
    let map = mapping(&[("EQ-PUMP-1", "ns=2;s=P1")]);
    assert_eq!(map.lookup(&"ns=2;s=XX".to_string()), None);
}

#[test]
fn an_empty_mapping_resolves_nothing() {
    let map = mapping(&[]);
    assert_eq!(map.len(), 0);
    assert_eq!(map.lookup(&"ns=2;s=P1".to_string()), None);
}

#[test]
fn a_duplicated_tag_takes_the_entry_listed_last() {
    let map = mapping(&[("EQ-OLD", "ns=2;s=P1"), ("EQ-NEW", "ns=2;s=P1")]);
    assert_eq!(map.lookup(&"ns=2;s=P1".to_string()), Some("EQ-NEW".to_string()));
}

#[test]
fn entries_keep_resource_order() {
    let map = mapping(&[("A", "t1"), ("B", "t2")]);
    assert_eq!(map.len(), 2);
    assert_eq!(map.entries()[0].external_id, "A");
    assert_eq!(map.entries()[1].scada_tag_candidate, "t2");
}

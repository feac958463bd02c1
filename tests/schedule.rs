use mpm::schedule::{create_system_set, Stage};

#[test]
fn stages_run_in_pipeline_order() {
    assert_eq!(
        create_system_set(),
        vec![
            Stage::ClearGrid,
            Stage::ScatterMass,
            Stage::ScatterStress,
            Stage::UpdateGrid,
            Stage::GatherToParticles,
            Stage::Interaction,
        ]
    );
}

#[test]
fn next_walks_the_tick() {
    let mut stage = Stage::ClearGrid;
    let mut walked = vec![stage];
    while let Some(s) = stage.next() {
        walked.push(s);
        stage = s;
    }
    assert_eq!(walked, create_system_set());
    assert_eq!(Stage::Interaction.next(), None);
    assert_eq!(Stage::UpdateGrid.next(), Some(Stage::GatherToParticles));
}

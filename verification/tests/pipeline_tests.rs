use ledger_loadgen::config::{available_workers, config_for};
use ledger_loadgen::deploy::{deploy_order, layer_artifact_name, layer_program_source, Layer};
use ledger_loadgen::env::GENESIS_SEED;
use ledger_loadgen::errors::PipelineError;
use ledger_loadgen::generate::{spam_function_name, spam_program_id};
use ledger_loadgen::naming::persist_names;
use ledger_loadgen::partition::{concat_worker_results, work_per_worker};

#[test]
fn at_least_one_worker_available() {
    assert!(available_workers() >= 1);
}

#[test]
fn config_takes_explicit_worker_count() {
    let cfg = config_for(36, Some(4));
    assert_eq!(cfg.transaction_count, 36);
    assert_eq!(cfg.worker_count, 4);
}

#[test]
fn config_defaults_to_hardware_parallelism() {
    let cfg = config_for(49, None);
    assert_eq!(cfg.transaction_count, 49);
    assert!(cfg.worker_count >= 1);
}

#[test]
fn deployment_order_is_topological() {
    assert_eq!(deploy_order(), vec![Layer::Child, Layer::Parent, Layer::Grandfather]);
}

#[test]
fn artifact_names_are_fixed() {
    assert_eq!(layer_artifact_name(Layer::Child), "block_child");
    assert_eq!(layer_artifact_name(Layer::Parent), "block_parent");
    assert_eq!(layer_artifact_name(Layer::Grandfather), "block_grandfather");
}

#[test]
fn program_sources_declare_their_layers() {
    assert!(layer_program_source(Layer::Child).contains("program child_spammer.aleo;"));
    assert!(layer_program_source(Layer::Parent).contains("program parent_spammer.aleo;"));
    assert!(
        layer_program_source(Layer::Grandfather).contains("program grandfather_spammer.aleo;")
    );
}

#[test]
fn program_imports_respect_the_chain() {
    // the leaf imports nothing; the middle imports the leaf; the top both
    assert!(!layer_program_source(Layer::Child).contains("import"));
    assert!(layer_program_source(Layer::Parent).contains("import child_spammer.aleo;"));
    assert!(layer_program_source(Layer::Grandfather).contains("import child_spammer.aleo;"));
    assert!(layer_program_source(Layer::Grandfather).contains("import parent_spammer.aleo;"));
}

#[test]
fn entry_point_is_fixed() {
    assert_eq!(spam_program_id(), "grandfather_spammer.aleo");
    assert_eq!(spam_function_name(), "outer_most_call");
    assert!(layer_program_source(Layer::Grandfather).contains("function outer_most_call:"));
}

#[test]
fn seed_is_fixed() {
    assert_eq!(GENESIS_SEED, 6404264900108107703);
}

#[test]
fn pipeline_errors_distinguish_stages() {
    assert_eq!(PipelineError::Setup, PipelineError::Setup);
    assert_ne!(PipelineError::Setup, PipelineError::InvalidBlock);
    assert_ne!(PipelineError::CorruptArtifact, PipelineError::Execution);
    assert_ne!(PipelineError::Serialization, PipelineError::CommitFailed);
}

#[test]
fn scenario_thirty_six_across_four_workers() {
    // seed-independent arithmetic of the fixed scenario: four workers,
    // thirty-six transactions, a share of nine each, files 0..35
    let share = work_per_worker(36, 4);
    assert_eq!(share, 9);
    let batches: Vec<Vec<usize>> =
        (0..4).map(|w| (0..share).map(|j| w * share + j).collect()).collect();
    let all = concat_worker_results(batches);
    assert_eq!(all.len(), 36);
    assert_eq!(all, (0..36).collect::<Vec<usize>>());
    let names = persist_names(0, all.len());
    assert_eq!(names.len(), 36);
    assert_eq!(names[0], "transaction_0");
    assert_eq!(names[35], "transaction_35");
}

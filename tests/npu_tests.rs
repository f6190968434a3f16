use std::collections::BTreeMap;

use starryos_rk3588::incremental_clustering::{
    ClusteringTask, ClusteringTaskStatus, IncrementalClusteringManager, ProcessingMode,
};
use starryos_rk3588::metadata_index_sync::{ChangeType, MetadataIndexSyncManager, SyncPolicy};
use starryos_rk3588::mipi_csi_driver::{FrameBuffer, FrameState, MipiCsi, VideoQueue};

fn manager_with(assignments: &[(u32, u32)]) -> IncrementalClusteringManager {
    let mut manager = IncrementalClusteringManager::new();
    let mut m = BTreeMap::new();
    for (p, c) in assignments {
        m.insert(*p, *c);
    }
    manager.import_clustering_result(m);
    manager
}

#[test]
fn incremental_clustering_test_task_creation() {
    let photo_ids = vec![1, 2, 3, 4, 5];
    let task = ClusteringTask::new(1, ProcessingMode::FullScan, photo_ids);

    assert_eq!(task.task_id, 1);
    assert_eq!(task.photo_count, 5);
    assert_eq!(task.status, ClusteringTaskStatus::Pending);
    assert_eq!(task.get_progress_percentage(), 0);
}

#[test]
fn test_progress_calculation() {
    let photo_ids = vec![1, 2, 3, 4, 5];
    let mut task = ClusteringTask::new(1, ProcessingMode::FullScan, photo_ids);

    task.processed_count = 2;
    assert_eq!(task.get_progress_percentage(), 40);

    task.processed_count = 5;
    assert_eq!(task.get_progress_percentage(), 100);
}

#[test]
fn test_incremental_clustering() {
    let mut manager = IncrementalClusteringManager::new();

    let photo_ids = vec![1, 2, 3];
    let task_id = manager.submit_full_scan_task(photo_ids).unwrap();
    assert_eq!(task_id, 0);

    manager.update_progress(1, 0).unwrap();
    manager.update_progress(2, 0).unwrap();
    manager.update_progress(3, 1).unwrap();

    assert_eq!(manager.get_cluster_id(1), Some(0));
    assert_eq!(manager.get_cluster_id(3), Some(1));
}

#[test]
fn test_merge_clusters() {
    let mut manager = manager_with(&[(1, 0), (2, 0), (3, 1)]);
    assert_eq!(manager.get_cluster_photos(0), Some(vec![1, 2]));
    assert_eq!(manager.get_cluster_photos(1), Some(vec![3]));

    assert!(manager.merge_clusters(0, 1).is_ok());
    assert_eq!(manager.get_cluster_id(1), Some(1));
    assert_eq!(manager.get_cluster_id(2), Some(1));
}

#[test]
fn incremental_clustering_test_stats() {
    let manager = manager_with(&[(1, 0), (2, 0), (3, 1)]);

    let (total_clusters, total_vectors, _, avg_size) = manager.get_stats();
    assert_eq!(total_clusters, 2);
    assert_eq!(total_vectors, 3);
    assert_eq!(avg_size, 1);
}

#[test]
fn completed_task_records_version_and_history() {
    let mut manager = IncrementalClusteringManager::new();
    assert!(manager.submit_incremental_task(vec![1]).is_err());
    manager.submit_full_scan_task(vec![10, 11]).unwrap();
    assert!(manager.submit_full_scan_task(vec![12]).is_err());
    manager.update_progress(10, 4).unwrap();
    assert_eq!(manager.get_current_task_status(), Some((0, ClusteringTaskStatus::Pending, 50)));
    manager.update_progress(11, 4).unwrap();
    assert_eq!(manager.get_current_task_status(), None);
    let versions = manager.get_index_versions();
    assert_eq!(versions.len(), 1);
    assert_eq!(versions[0].version, 1);
    assert_eq!(versions[0].total_clusters, 1);
    assert_eq!(versions[0].total_vectors, 2);
    assert_eq!(manager.get_task_history()[0].status, ClusteringTaskStatus::Completed);
    assert_eq!(manager.submit_incremental_task(vec![12]), Ok(1));
    assert!(manager.cancel_current_task().is_ok());
    assert_eq!(manager.get_task_history()[1].status, ClusteringTaskStatus::Cancelled);
    assert!(manager.cancel_current_task().is_err());
    assert!(manager.update_progress(1, 1).is_err());
    assert!(manager.restore_from_version(1).is_err());
}

#[test]
fn merge_into_missing_cluster_fails() {
    let mut manager = manager_with(&[(1, 0)]);
    assert!(manager.merge_clusters(0, 9).is_err());
    assert!(manager.merge_clusters(9, 0).is_err());
    assert_eq!(manager.get_cluster_photos(0), Some(vec![1]));
}

#[test]
fn split_moves_listed_positions_to_new_cluster() {
    let mut manager = manager_with(&[(1, 2), (5, 2), (7, 2), (9, 3)]);
    let new_id = manager.split_cluster(2, &[0, 2]).unwrap();
    assert_eq!(new_id, 4);
    assert_eq!(manager.get_cluster_photos(2), Some(vec![5]));
    assert_eq!(manager.get_cluster_photos(4), Some(vec![1, 7]));
    assert_eq!(manager.get_cluster_id(7), Some(4));
    assert_eq!(manager.get_cluster_id(5), Some(2));
    let moved_all = manager.split_cluster(3, &[0]).unwrap();
    assert_eq!(moved_all, 5);
    assert_eq!(manager.get_cluster_photos(3), None);
    assert_eq!(manager.get_cluster_photos(5), Some(vec![9]));
    assert!(manager.split_cluster(42, &[]).is_err());
}

#[test]
fn import_orders_members_by_photo_id_and_export_round_trips() {
    let manager = manager_with(&[(30, 1), (10, 1), (20, 1), (5, 0)]);
    assert_eq!(manager.get_cluster_photos(1), Some(vec![10, 20, 30]));
    let exported = manager.export_clustering_result();
    assert_eq!(exported.len(), 4);
    assert_eq!(exported.get(&30), Some(&1));
}

#[test]
fn estimated_remaining_time_only_while_processing() {
    let mut task = ClusteringTask::new(0, ProcessingMode::Rebuild, vec![1, 2, 3, 4]);
    assert_eq!(task.get_estimated_remaining_time(10), None);
    task.status = ClusteringTaskStatus::Processing;
    task.processed_count = 1;
    assert_eq!(task.get_estimated_remaining_time(10), Some(30));
    assert_eq!(ClusteringTaskStatus::Processing.name(), "Processing");
}

#[test]
fn test_metadata_sync_manager_creation() {
    let policy = SyncPolicy::default();
    let manager = MetadataIndexSyncManager::new(policy);

    assert_eq!(manager.current_version(), 0);
    assert_eq!(manager.get_pending_changes_count(), 0);
}

#[test]
fn test_track_changes() {
    let policy = SyncPolicy::default();
    let mut manager = MetadataIndexSyncManager::new(policy);

    manager.track_change(1, ChangeType::Add, 100).unwrap();
    manager.track_change(2, ChangeType::Modify, 50).unwrap();

    assert_eq!(manager.get_pending_changes_count(), 2);
}

#[test]
fn test_incremental_sync() {
    let policy = SyncPolicy::default();
    let mut manager = MetadataIndexSyncManager::new(policy);

    manager.track_change(1, ChangeType::Add, 100).unwrap();
    manager.track_change(2, ChangeType::Modify, 50).unwrap();

    let delta = manager.flush_incremental_sync().unwrap();
    assert_eq!(delta.added_records, 1);
    assert_eq!(delta.modified_records, 1);
    assert_eq!(manager.get_pending_changes_count(), 0);
}

#[test]
fn flush_records_version_with_paths() {
    let mut manager = MetadataIndexSyncManager::new(SyncPolicy::default());
    assert!(manager.flush_incremental_sync().is_err());
    manager.track_change(3, ChangeType::Delete, 7).unwrap();
    manager.track_change(4, ChangeType::Add, 8).unwrap();
    assert_eq!(manager.estimate_delta_size(), 15);
    let delta = manager.flush_incremental_sync().unwrap();
    assert_eq!((delta.from_version, delta.to_version), (0, 1));
    assert_eq!(delta.deleted_records, 1);
    assert_eq!(delta.changes.len(), 2);
    let v = &manager.get_version_history()[0];
    assert_eq!(v.cloud_backup_path.as_deref(), Some("/metadata/v1"));
    assert_eq!(v.checksum, "checksum_0");
    assert_eq!(manager.get_delta_history().len(), 1);
    let full = manager.full_sync().unwrap();
    assert_eq!(full.version, 2);
    assert_eq!(full.cloud_backup_path.as_deref(), Some("/metadata/full/2"));
    assert!(manager.restore_from_cloud(2, &[1, 2, 3]).is_ok());
    assert!(manager.restore_from_cloud(9, &[]).is_err());
}

#[test]
fn overflowing_buffer_flushes_automatically() {
    let mut manager = MetadataIndexSyncManager::new(SyncPolicy::default());
    for i in 0..1000u32 {
        manager.track_change(i, ChangeType::Modify, 1).unwrap();
    }
    assert_eq!(manager.get_pending_changes_count(), 1000);
    manager.track_change(1000, ChangeType::Add, 1).unwrap();
    assert_eq!(manager.get_pending_changes_count(), 0);
    assert_eq!(manager.current_version(), 1);
    let d = &manager.get_delta_history()[0];
    assert_eq!((d.added_records, d.modified_records), (1, 1000));
    assert_eq!(ChangeType::Delete.name(), "Delete");
}

#[test]
fn test_frame_buffer() {
    let frame = FrameBuffer::new(0x80000000, 0x10000000, 2097152);
    assert_eq!(frame.state, FrameState::Empty);
    assert_eq!(frame.size, 2097152);
}

#[test]
fn test_video_queue() {
    let mut queue = VideoQueue::new(3);
    let frame = FrameBuffer::new(0x80000000, 0x10000000, 2097152);
    let idx = queue.add_frame(frame);

    queue.queue_buffer(idx).unwrap();
    let ready = queue.dequeue_ready();
    assert_eq!(ready, Some(idx));
}

#[test]
fn frame_cycles_through_capture_states() {
    let mut csi = MipiCsi::new(0xfda00000, 0xfdb30000, 0xfdb20000, 2);
    assert_eq!(csi.get_captured_frame(), None);
    let mut q = VideoQueue::new(2);
    assert!(q.queue_buffer(0).is_err());
    assert!(q.frame_done().is_err());
    let a = q.add_frame(FrameBuffer::new(1, 2, 3));
    let b = q.add_frame(FrameBuffer::new(4, 5, 6));
    q.queue_buffer(a).unwrap();
    q.queue_buffer(b).unwrap();
    assert_eq!(q.get_frame(a).unwrap().state, FrameState::Queued);
    assert_eq!(q.dequeue_ready(), Some(b));
    assert_eq!(q.get_frame(b).unwrap().state, FrameState::Capturing);
    q.frame_done().unwrap();
    assert_eq!(q.get_frame(b).unwrap().state, FrameState::Done);
    if let Some(f) = q.get_frame_mut(b) {
        f.data_size = 3;
    }
    assert_eq!(q.get_frame(b).unwrap().data_size, 3);
    assert!(q.get_frame_mut(7).is_none());
    assert_eq!(q.dequeue_done(), Some(b));
    assert_eq!(q.get_frame(b).unwrap().state, FrameState::Empty);
    assert_eq!(q.dequeue_done(), None);
    assert_eq!(csi.base_addresses(), (0xfda00000, 0xfdb30000, 0xfdb20000));
}

use webgpu::actor::{WebGPUMsg, WebGPUOpResult, DEVICE_POLL_INTERVAL, WGPU};
use webgpu::bridge::{convert_to_pointer, BufferMapInfo, MapCompletion, MapReply, PendingMaps};

#[test]
fn exit_stops_everything_after_it() {
    let mut actor: WGPU<u32> = WGPU::new(0);
    let run = [false, false, true, false, true, false];
    let taken: Vec<bool> = run.iter().map(|e| actor.accept(*e)).collect();
    assert_eq!(taken, vec![true, true, true, false, false, false]);
    assert!(!actor.running);
}

#[test]
fn poll_is_due_every_interval() {
    let mut actor: WGPU<u32> = WGPU::new(1000);
    assert!(!actor.poll_due(1050));
    assert!(actor.poll_due(1000 + DEVICE_POLL_INTERVAL));
    assert_eq!(actor.last_poll, 1100);
    assert!(!actor.poll_due(1199));
    assert!(actor.poll_due(1300));
    assert!(!actor.poll_due(5));
}

#[test]
fn direct_map_replies_then_is_consumed() {
    let mut actor: WGPU<u32> = WGPU::new(0);
    assert!(actor.buffer_map_async(77, 3, 16, 48));
    assert!(!actor.buffer_map_async(78, 3, 0, 8));
    assert_eq!(actor.pending.reply_for(3), Some(&77));
    assert_eq!(actor.map_completed(3, true), MapCompletion::Reply { buffer_id: 3, size: 32 });
    assert!(actor.pending.contains(3));
    actor.buffer_map_complete(3);
    assert!(!actor.pending.contains(3));
    assert_eq!(actor.map_completed(3, true), MapCompletion::Unknown);
}

#[test]
fn failed_map_is_dropped() {
    let mut actor: WGPU<u32> = WGPU::new(0);
    assert!(actor.buffer_map_async(1, 9, 0, 4));
    assert_eq!(actor.map_completed(9, false), MapCompletion::Failed { buffer_id: 9 });
    assert!(!actor.pending.contains(9));
    assert_eq!(actor.pending.reply_for(9), None);
}

#[test]
fn reversed_map_range_is_refused() {
    let mut actor: WGPU<u32> = WGPU::new(0);
    assert!(!actor.buffer_map_async(1, 9, 10, 4));
    assert!(!actor.pending.contains(9));
}

#[test]
fn registry_keys_entries_by_buffer() {
    let mut maps: PendingMaps<u32> = PendingMaps::new();
    let info = BufferMapInfo { buffer_id: 12, reply: MapReply::Present { external_id: 4 }, size: 64 };
    assert_eq!(convert_to_pointer(&info), 12);
    assert!(maps.register(info));
    assert!(!maps.register(BufferMapInfo { buffer_id: 12, reply: MapReply::Direct(1), size: 1 }));
    assert_eq!(maps.reply_for(12), None);
    assert_eq!(maps.complete(12, true), MapCompletion::Publish { buffer_id: 12, external_id: 4, size: 64 });
    assert!(maps.consume(12));
    assert!(!maps.consume(12));
}

#[test]
fn devices_and_results() {
    let mut actor: WGPU<u32> = WGPU::new(0);
    assert_eq!(actor.send_result(1, 2, Ok(())), None);
    actor.device_created(1, 900);
    actor.adapter_picked(4);
    assert_eq!(actor.adapters, vec![4]);
    assert_eq!(
        actor.send_result(1, 2, Ok(())),
        Some(WebGPUMsg::WebGPUOpResult { device: 1, scope_id: 2, pipeline_id: 900, result: WebGPUOpResult::Success })
    );
    assert_eq!(
        actor.send_result(1, 3, Err("bad layout".to_string())),
        Some(WebGPUMsg::WebGPUOpResult {
            device: 1,
            scope_id: 3,
            pipeline_id: 900,
            result: WebGPUOpResult::ValidationError("bad layout".to_string()),
        })
    );
    assert_eq!(actor.free_device(1), Some(WebGPUMsg::CleanDevice { device: 1, pipeline_id: 900 }));
    assert_eq!(actor.free_device(1), None);
}

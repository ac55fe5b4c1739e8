use monorail::shard::ShardId;
use monorail::topology::{
    bridge_setup_plan, cpu_for_shard, finalize_order, logical_cpu_count, monitor_route,
    MonorailConfiguration,
    ShardConfigurator, ShardRoute,
};

#[test]
fn builder_sets_limit() {
    let config = MonorailConfiguration::builder().with_core_override(3).build();
    assert_eq!(config.limit, Some(3));
    assert_eq!(config.core_count(8), 3);
    let config = MonorailConfiguration::builder().build();
    assert_eq!(config.limit, None);
    assert_eq!(config.core_count(8), 8);
    assert_eq!(config.core_count(logical_cpu_count()), logical_cpu_count());
    assert!(logical_cpu_count() >= 1);
}

#[test]
fn shards_wrap_around_cpus() {
    assert_eq!(cpu_for_shard(ShardId::new(4), 4), 0);
    assert_eq!(cpu_for_shard(ShardId::new(6), 4), 2);
    assert_eq!(cpu_for_shard(ShardId::new(3), 4), 3);
    assert_eq!(cpu_for_shard(ShardId::new(5), 1), 0);
}

#[test]
fn plan_lists_every_ordered_pair() {
    let plan = bridge_setup_plan(3);
    let pairs: Vec<(usize, usize)> = plan.iter().map(|(a, b)| (a.as_usize(), b.as_usize())).collect();
    assert_eq!(pairs, vec![(0, 1), (0, 2), (1, 0), (1, 2), (2, 0), (2, 1)]);
    assert!(bridge_setup_plan(1).is_empty());
    assert!(bridge_setup_plan(0).is_empty());
}

#[test]
fn finalize_goes_backwards() {
    let order: Vec<usize> = finalize_order(4).iter().map(|s| s.as_usize()).collect();
    assert_eq!(order, vec![3, 2, 1, 0]);
}

#[test]
fn monitor_lives_on_shard_zero() {
    assert_eq!(monitor_route(ShardId::new(0)), None);
    assert_eq!(monitor_route(ShardId::new(4)), Some(ShardId::new(0)));
}

#[test]
fn configurator_builds_routes() {
    let mut c: ShardConfigurator<&str, u32, u8> = ShardConfigurator::new(ShardId::new(1), 3);
    assert!(!c.is_complete());
    c.set_producer(ShardId::new(0), "to0");
    c.set_consumer(ShardId::new(0), 10);
    assert!(!c.is_complete());
    c.set_producer(ShardId::new(2), "to2");
    c.set_consumer(ShardId::new(2), 12);
    c.set_seed(7);
    assert!(c.is_complete());
    let (routes, seed) = c.finalize();
    assert_eq!(seed, Some(7));
    assert_eq!(routes.len(), 3);
    assert!(matches!(routes[0], ShardRoute::Bridge("to0", 10)));
    assert!(matches!(routes[1], ShardRoute::Loopback));
    assert!(matches!(routes[2], ShardRoute::Bridge("to2", 12)));
}

#[test]
fn plan_wires_every_configurator() {
    let n = 4;
    let mut shards: Vec<ShardConfigurator<(usize, usize), (usize, usize), ()>> =
        (0..n).map(|i| ShardConfigurator::new(ShardId::new(i), n)).collect();
    for (requester, target) in bridge_setup_plan(n) {
        let pair = (requester.as_usize(), target.as_usize());
        shards[target.as_usize()].set_consumer(requester, pair);
        shards[requester.as_usize()].set_producer(target, pair);
    }
    for (i, shard) in shards.into_iter().enumerate() {
        assert!(shard.is_complete());
        assert_eq!(shard.topology_info().cores, n);
        let (routes, _) = shard.finalize();
        for (j, route) in routes.iter().enumerate() {
            match route {
                ShardRoute::Loopback => assert_eq!(i, j),
                ShardRoute::Bridge(p, c) => {
                    assert_eq!(*p, (i, j));
                    assert_eq!(*c, (j, i));
                }
            }
        }
    }
}

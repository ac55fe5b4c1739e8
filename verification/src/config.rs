use vstd::prelude::*;

verus! {

/// One item of the settings given to the entry-point attributes
/// (`#[main(cores = 4)]`, `#[test(limit = 2)]`): a `key = value` pair, with
/// the key when it is a single identifier, or anything else.
pub enum ConfigMeta<V> {
    NameValue { ident: Option<String>, value: V },
    Other,
}

/// Why the settings of an entry-point attribute are refused.
#[derive(Clone, Debug, PartialEq, Eq)]
pub enum ConfigError {
    /// Item number `.0` is a `key = value` pair whose key `.1` is no
    /// setting.
    UnknownKey(usize, String),
    /// Item number `.0` is not a `key = value` pair.
    ExpectedKeyValue(usize),
}

/// The keys that set the core limit.
pub open spec fn is_limit_key(key: Seq<char>) -> bool {
    key == "cores"@ || key == "core_override"@ || key == "limit"@
}

/// The core limit that the settings `items` give: the first item that is
/// not a `key = value` pair, or whose single-identifier key is no setting,
/// refuses them; otherwise the value of the last item whose key is `cores`,
/// `core_override` or `limit` is the limit (none when there is no such
/// item). Pairs whose key is not a single identifier are skipped. An error
/// names the position of the item that caused it.
pub open spec fn config_limit_spec<V>(items: Seq<ConfigMeta<V>>) -> Result<Option<V>, ConfigError>
    decreases items.len(),
{
    if items.len() == 0 {
        Ok(None)
    } else {
        match config_limit_spec(items.drop_last()) {
            Err(e) => Err(e),
            Ok(prev) => match items.last() {
                ConfigMeta::NameValue { ident: Some(key), value } => if is_limit_key(key@) {
                    Ok(Some(value))
                } else {
                    Err(ConfigError::UnknownKey((items.len() - 1) as usize, key))
                },
                ConfigMeta::NameValue { ident: None, value: _ } => Ok(prev),
                ConfigMeta::Other => Err(ConfigError::ExpectedKeyValue((items.len() - 1) as usize)),
            },
        }
    }
}

/// Whether `key` sets the core limit.
fn is_limit_key_name(key: &String) -> (r: bool)
    ensures
        r == is_limit_key(key@),
{
    let cores = "cores".to_owned();
    let core_override = "core_override".to_owned();
    let limit = "limit".to_owned();
    *key == cores || *key == core_override || *key == limit
}

/// What an item does to the scan of the settings.
enum ItemKind {
    Limit,
    Skip,
    Unknown,
    NotKeyValue,
}

fn classify<V>(item: &ConfigMeta<V>) -> (r: ItemKind)
    ensures
        match *item {
            ConfigMeta::NameValue { ident: Some(key), value: _ } => if is_limit_key(key@) {
                r is Limit
            } else {
                r is Unknown
            },
            ConfigMeta::NameValue { ident: None, value: _ } => r is Skip,
            ConfigMeta::Other => r is NotKeyValue,
        },
{
    match item {
        ConfigMeta::NameValue { ident: Some(key), value: _ } => {
            if is_limit_key_name(key) {
                ItemKind::Limit
            } else {
                ItemKind::Unknown
            }
        },
        ConfigMeta::NameValue { ident: None, value: _ } => ItemKind::Skip,
        ConfigMeta::Other => ItemKind::NotKeyValue,
    }
}

/// The core limit that the settings of an entry-point attribute give, or
/// why they are refused.
pub fn config_limit<V>(items: Vec<ConfigMeta<V>>) -> (r: Result<Option<V>, ConfigError>)
    ensures
        r == config_limit_spec(items@),
{
    let ghost all = items@;
    let mut list = items;
    let mut chosen: Option<usize> = None;
    let mut i: usize = 0;
    while i < list.len()
        invariant
            list@ == all,
            all == items@,
            i <= all.len(),
            chosen matches Some(j) ==> j < i && all[j as int] is NameValue,
            config_limit_spec(all.subrange(0, i as int)) == match chosen {
                Some(j) => Ok::<Option<V>, ConfigError>(Some(all[j as int]->value)),
                None => Ok::<Option<V>, ConfigError>(None),
            },
        decreases all.len() - i,
    {
        proof {
            assert(all.subrange(0, i + 1).drop_last() =~= all.subrange(0, i as int));
            assert(all.subrange(0, i + 1).last() == all[i as int]);
        }
        match classify(&list[i]) {
            ItemKind::Limit => {
                chosen = Some(i);
            },
            ItemKind::Skip => {},
            ItemKind::Unknown => {
                let item = list.remove(i);
                match item {
                    ConfigMeta::NameValue { ident: Some(key), value: _ } => {
                        proof {
                            assert(config_limit_spec(all.subrange(0, i + 1)) == Err::<
                                Option<V>,
                                ConfigError,
                            >(ConfigError::UnknownKey(i, key)));
                            lemma_error_stays(all, (i + 1) as nat);
                        }
                        return Err(ConfigError::UnknownKey(i, key));
                    },
                    _ => {
                        return vstd::pervasive::unreached();
                    },
                }
            },
            ItemKind::NotKeyValue => {
                proof {
                    assert(config_limit_spec(all.subrange(0, i + 1)) == Err::<
                        Option<V>,
                        ConfigError,
                    >(ConfigError::ExpectedKeyValue(i)));
                    lemma_error_stays(all, (i + 1) as nat);
                }
                return Err(ConfigError::ExpectedKeyValue(i));
            },
        }
        i = i + 1;
    }
    proof {
        assert(all.subrange(0, all.len() as int) =~= all);
    }
    match chosen {
        Some(j) => {
            let item = list.remove(j);
            match item {
                ConfigMeta::NameValue { ident: _, value } => Ok(Some(value)),
                ConfigMeta::Other => vstd::pervasive::unreached(),
            }
        },
        None => Ok(None),
    }
}

/// Whether the settings refuse item `item`: it is not a `key = value`
/// pair, or its single-identifier key is no setting.
pub open spec fn refuses<V>(item: ConfigMeta<V>) -> bool {
    match item {
        ConfigMeta::NameValue { ident: Some(key), value: _ } => !is_limit_key(key@),
        ConfigMeta::NameValue { ident: None, value: _ } => false,
        ConfigMeta::Other => true,
    }
}

/// Whether item `item` sets the core limit.
pub open spec fn sets_limit<V>(item: ConfigMeta<V>) -> bool {
    item matches ConfigMeta::NameValue { ident: Some(key), value: _ } && is_limit_key(key@)
}

/// The error that refused item `item`, at position `at`, is reported as.
pub open spec fn refusal<V>(item: ConfigMeta<V>, at: int) -> ConfigError {
    match item {
        ConfigMeta::NameValue { ident: Some(key), value: _ } => ConfigError::UnknownKey(
            at as usize,
            key,
        ),
        _ => ConfigError::ExpectedKeyValue(at as usize),
    }
}

/// Settings that refuse no item are accepted.
proof fn lemma_accepted<V>(items: Seq<ConfigMeta<V>>)
    requires
        forall|i: int| 0 <= i < items.len() ==> !refuses(#[trigger] items[i]),
    ensures
        config_limit_spec(items) is Ok,
    decreases items.len(),
{
    if items.len() > 0 {
        let init = items.drop_last();
        assert forall|i: int| 0 <= i < init.len() implies !refuses(#[trigger] init[i]) by {
            assert(init[i] == items[i]);
        }
        lemma_accepted(init);
        assert(!refuses(items[items.len() - 1]));
    }
}

/// The settings are refused as soon as one item is refused, whatever
/// comes before or after it: the first refused item decides the error, an
/// unknown key with its position and name, anything that is not a
/// `key = value` pair with its position.
pub proof fn law_first_refused_item_decides<V>(items: Seq<ConfigMeta<V>>, j: int)
    requires
        0 <= j < items.len(),
        refuses(items[j]),
        forall|i: int| 0 <= i < j ==> !refuses(#[trigger] items[i]),
    ensures
        config_limit_spec(items) == Err::<Option<V>, ConfigError>(refusal(items[j], j)),
    decreases items.len(),
{
    let init = items.drop_last();
    if j == items.len() - 1 {
        assert forall|i: int| 0 <= i < init.len() implies !refuses(#[trigger] init[i]) by {
            assert(init[i] == items[i]);
        }
        lemma_accepted(init);
    } else {
        assert forall|i: int| 0 <= i < j implies !refuses(#[trigger] init[i]) by {
            assert(init[i] == items[i]);
        }
        assert(init[j] == items[j]);
        law_first_refused_item_decides(init, j);
    }
}

/// Accepted settings give the value of the last item that sets the core
/// limit: when no item is refused, item `j` sets the limit and no later
/// item does, the limit is item `j`'s value.
pub proof fn law_last_limit_item_wins<V>(items: Seq<ConfigMeta<V>>, j: int)
    requires
        forall|i: int| 0 <= i < items.len() ==> !refuses(#[trigger] items[i]),
        0 <= j < items.len(),
        sets_limit(items[j]),
        forall|i: int| j < i < items.len() ==> !sets_limit(#[trigger] items[i]),
    ensures
        config_limit_spec(items) == Ok::<Option<V>, ConfigError>(Some(items[j]->value)),
    decreases items.len(),
{
    let init = items.drop_last();
    assert forall|i: int| 0 <= i < init.len() implies !refuses(#[trigger] init[i]) by {
        assert(init[i] == items[i]);
    }
    if j == items.len() - 1 {
        lemma_accepted(init);
    } else {
        assert forall|i: int| j < i < init.len() implies !sets_limit(#[trigger] init[i]) by {
            assert(init[i] == items[i]);
        }
        assert(init[j] == items[j]);
        law_last_limit_item_wins(init, j);
        assert(!refuses(items[items.len() - 1]));
        assert(!sets_limit(items[items.len() - 1]));
    }
}

/// Accepted settings without any item that sets the core limit give no
/// limit (the topology then runs one shard per CPU).
pub proof fn law_no_limit_without_limit_item<V>(items: Seq<ConfigMeta<V>>)
    requires
        forall|i: int| 0 <= i < items.len() ==> !refuses(#[trigger] items[i]),
        forall|i: int| 0 <= i < items.len() ==> !sets_limit(#[trigger] items[i]),
    ensures
        config_limit_spec(items) == Ok::<Option<V>, ConfigError>(None),
    decreases items.len(),
{
    if items.len() > 0 {
        let init = items.drop_last();
        assert forall|i: int| 0 <= i < init.len() implies !refuses(#[trigger] init[i])
            && !sets_limit(init[i]) by {
            assert(init[i] == items[i]);
        }
        law_no_limit_without_limit_item(init);
        assert(!refuses(items[items.len() - 1]));
        assert(!sets_limit(items[items.len() - 1]));
    }
}

/// The keys that set the core limit are exactly `cores`, `core_override`
/// and `limit`: any other single-identifier key is refused.
pub proof fn law_limit_keys<V>(key: String, value: V)
    ensures
        sets_limit(ConfigMeta::NameValue { ident: Some(key), value }) <==> (key@ == "cores"@
            || key@ == "core_override"@ || key@ == "limit"@),
        refuses(ConfigMeta::NameValue { ident: Some(key), value }) <==> !(key@ == "cores"@
            || key@ == "core_override"@ || key@ == "limit"@),
{
}

/// Once a prefix of the settings is refused, the whole is refused with the
/// same error.
proof fn lemma_error_stays<V>(items: Seq<ConfigMeta<V>>, n: nat)
    requires
        n <= items.len(),
        config_limit_spec(items.subrange(0, n as int)) is Err,
    ensures
        config_limit_spec(items) == config_limit_spec(items.subrange(0, n as int)),
    decreases items.len() - n,
{
    if n < items.len() {
        assert(items.subrange(0, (n + 1) as int).drop_last() =~= items.subrange(0, n as int));
        lemma_error_stays(items, n + 1);
    } else {
        assert(items.subrange(0, n as int) =~= items);
    }
}

} // verus!

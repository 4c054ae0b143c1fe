//! The numbers that stand for the status strings of the load balancing
//! service. Dashboards depend on them: each table is fixed, and a string that
//! is not in its table reads -1.

use vstd::prelude::*;
use crate::text::is_word;

verus! {

/// The number of a pool's provisioning status.
pub open spec fn pool_status_code(status: Seq<char>) -> int {
    if status == "ACTIVE"@ {
        0
    } else if status == "DELETED"@ {
        1
    } else if status == "ERROR"@ {
        2
    } else if status == "PENDING_CREATE"@ {
        3
    } else if status == "PENDING_UPDATE"@ {
        4
    } else if status == "PENDING_DELETE"@ {
        5
    } else {
        -1
    }
}

/// The number of an amphora's status.
pub open spec fn amphora_status_code(status: Seq<char>) -> int {
    if status == "BOOTING"@ {
        0
    } else if status == "ALLOCATED"@ {
        1
    } else if status == "READY"@ {
        2
    } else if status == "PENDING_CREATE"@ {
        3
    } else if status == "PENDING_DELETE"@ {
        4
    } else if status == "DELETED"@ {
        5
    } else if status == "ERROR"@ {
        6
    } else {
        -1
    }
}

/// The number of a load balancer's operating status.
pub open spec fn loadbalancer_status_code(status: Seq<char>) -> int {
    if status == "ONLINE"@ {
        0
    } else if status == "DRAINING"@ {
        1
    } else if status == "OFFLINE"@ {
        2
    } else if status == "ERROR"@ {
        3
    } else if status == "NO_MONITOR"@ {
        4
    } else {
        -1
    }
}

/// The number of a pool's provisioning status.
pub fn pool_status_value(status: &String) -> (value: i64)
    ensures
        value == pool_status_code(status@),
{
    if is_word(status, "ACTIVE") {
        0
    } else if is_word(status, "DELETED") {
        1
    } else if is_word(status, "ERROR") {
        2
    } else if is_word(status, "PENDING_CREATE") {
        3
    } else if is_word(status, "PENDING_UPDATE") {
        4
    } else if is_word(status, "PENDING_DELETE") {
        5
    } else {
        -1
    }
}

/// The number of an amphora's status.
pub fn amphora_status_value(status: &String) -> (value: i64)
    ensures
        value == amphora_status_code(status@),
{
    if is_word(status, "BOOTING") {
        0
    } else if is_word(status, "ALLOCATED") {
        1
    } else if is_word(status, "READY") {
        2
    } else if is_word(status, "PENDING_CREATE") {
        3
    } else if is_word(status, "PENDING_DELETE") {
        4
    } else if is_word(status, "DELETED") {
        5
    } else if is_word(status, "ERROR") {
        6
    } else {
        -1
    }
}

/// The number of a load balancer's operating status.
pub fn loadbalancer_status_value(status: &String) -> (value: i64)
    ensures
        value == loadbalancer_status_code(status@),
{
    if is_word(status, "ONLINE") {
        0
    } else if is_word(status, "DRAINING") {
        1
    } else if is_word(status, "OFFLINE") {
        2
    } else if is_word(status, "ERROR") {
        3
    } else if is_word(status, "NO_MONITOR") {
        4
    } else {
        -1
    }
}

/// The table of pool provisioning statuses is exact: each of its six strings
/// has its own number, from 0 to 5 in the order of the table, and every
/// other string reads -1.
pub proof fn lemma_pool_status_table(status: Seq<char>)
    ensures
        pool_status_code("ACTIVE"@) == 0,
        pool_status_code("DELETED"@) == 1,
        pool_status_code("ERROR"@) == 2,
        pool_status_code("PENDING_CREATE"@) == 3,
        pool_status_code("PENDING_UPDATE"@) == 4,
        pool_status_code("PENDING_DELETE"@) == 5,
        status != "ACTIVE"@ && status != "DELETED"@ && status != "ERROR"@ && status
            != "PENDING_CREATE"@ && status != "PENDING_UPDATE"@ && status != "PENDING_DELETE"@
            <==> pool_status_code(status) == -1,
{
    reveal_strlit("ACTIVE");
    assert("ACTIVE"@.len() == 6);
    reveal_strlit("DELETED");
    assert("DELETED"@.len() == 7);
    reveal_strlit("ERROR");
    assert("ERROR"@.len() == 5);
    reveal_strlit("PENDING_CREATE");
    assert("PENDING_CREATE"@.len() == 14);
    reveal_strlit("PENDING_UPDATE");
    assert("PENDING_UPDATE"@.len() == 14);
    reveal_strlit("PENDING_DELETE");
    assert("PENDING_DELETE"@.len() == 14);
    assert("PENDING_CREATE"@[8] != "PENDING_UPDATE"@[8]);
    assert("PENDING_CREATE"@[8] != "PENDING_DELETE"@[8]);
    assert("PENDING_UPDATE"@[8] != "PENDING_DELETE"@[8]);
}

/// The table of amphora statuses is exact: each of its seven strings has its
/// own number, from 0 to 6 in the order of the table, and every other string
/// reads -1.
pub proof fn lemma_amphora_status_table(status: Seq<char>)
    ensures
        amphora_status_code("BOOTING"@) == 0,
        amphora_status_code("ALLOCATED"@) == 1,
        amphora_status_code("READY"@) == 2,
        amphora_status_code("PENDING_CREATE"@) == 3,
        amphora_status_code("PENDING_DELETE"@) == 4,
        amphora_status_code("DELETED"@) == 5,
        amphora_status_code("ERROR"@) == 6,
        status != "BOOTING"@ && status != "ALLOCATED"@ && status != "READY"@ && status
            != "PENDING_CREATE"@ && status != "PENDING_DELETE"@ && status != "DELETED"@ && status
            != "ERROR"@ <==> amphora_status_code(status) == -1,
{
    reveal_strlit("BOOTING");
    assert("BOOTING"@.len() == 7);
    reveal_strlit("ALLOCATED");
    assert("ALLOCATED"@.len() == 9);
    reveal_strlit("READY");
    assert("READY"@.len() == 5);
    reveal_strlit("PENDING_CREATE");
    assert("PENDING_CREATE"@.len() == 14);
    reveal_strlit("PENDING_DELETE");
    assert("PENDING_DELETE"@.len() == 14);
    reveal_strlit("DELETED");
    assert("DELETED"@.len() == 7);
    reveal_strlit("ERROR");
    assert("ERROR"@.len() == 5);
    assert("BOOTING"@[0] != "DELETED"@[0]);
    assert("READY"@[0] != "ERROR"@[0]);
    assert("PENDING_CREATE"@[8] != "PENDING_DELETE"@[8]);
}

/// The table of load balancer operating statuses is exact: each of its five
/// strings has its own number, from 0 to 4 in the order of the table, and
/// every other string reads -1.
pub proof fn lemma_loadbalancer_status_table(status: Seq<char>)
    ensures
        loadbalancer_status_code("ONLINE"@) == 0,
        loadbalancer_status_code("DRAINING"@) == 1,
        loadbalancer_status_code("OFFLINE"@) == 2,
        loadbalancer_status_code("ERROR"@) == 3,
        loadbalancer_status_code("NO_MONITOR"@) == 4,
        status != "ONLINE"@ && status != "DRAINING"@ && status != "OFFLINE"@ && status
            != "ERROR"@ && status != "NO_MONITOR"@ <==> loadbalancer_status_code(status) == -1,
{
    reveal_strlit("ONLINE");
    assert("ONLINE"@.len() == 6);
    reveal_strlit("DRAINING");
    assert("DRAINING"@.len() == 8);
    reveal_strlit("OFFLINE");
    assert("OFFLINE"@.len() == 7);
    reveal_strlit("ERROR");
    assert("ERROR"@.len() == 5);
    reveal_strlit("NO_MONITOR");
    assert("NO_MONITOR"@.len() == 10);
}

} // verus!

//! The mailbox subsystem: overwrite-insert queues, registration, and
//! timeout-bounded delivery with partial-failure aggregation.

use torus_sim::message::AddressCollection;
use torus_sim::message::AgentInbox;
use torus_sim::message::AgentOutbox;
use torus_sim::message::Inbox;
use torus_sim::message::MessageInterface;
use torus_sim::message::MessageQueue;
use torus_sim::message::Outbox;
use torus_sim::utils::sync::GreedyCell;
use torus_sim::utils::sync::GreedyLock;

#[derive(Copy, Clone, Debug, PartialEq, Eq, Hash)]
enum TestMessage {
    RequestSync,
    Acknowledge,
    Finish,
}

struct TestAgent {
    message_module: MessageInterface<TestMessage>,
    agent_identity: usize,
}

struct TestEnvironment {
    agents: Vec<TestAgent>,
    inbox_addresses: AddressCollection<TestMessage>,
}

fn spawn_test_environment(population: usize) -> TestEnvironment {
    let mut agents: Vec<TestAgent> = Vec::new();
    let mut inbox_addresses: AddressCollection<TestMessage> = AddressCollection::default();

    for round in 0..population {
        let message_module = MessageInterface::new(round, &mut inbox_addresses);
        agents.push(TestAgent { message_module, agent_identity: round });
    }

    TestEnvironment { agents, inbox_addresses }
}

#[test]
fn test_inbox_push() {
    let dummy_identity = 0;
    let dummy_message = TestMessage::RequestSync;

    let mut test_inbox: AgentInbox<TestMessage> = AgentInbox::default();
    test_inbox.push(dummy_identity, dummy_message);

    assert_eq!(test_inbox.get_messages().len(), 1);
    assert_eq!(test_inbox.read_msg(dummy_identity), Some(&TestMessage::RequestSync));
}

#[test]
fn test_inbox_read() {
    let dummy_identity = 0;
    let dummy_message = TestMessage::RequestSync;

    let mut test_inbox: AgentInbox<TestMessage> = AgentInbox::default();
    test_inbox.push(dummy_identity, dummy_message);

    let test_message: &TestMessage = test_inbox.read_msg(dummy_identity).unwrap();
    let expected_message: &TestMessage = &TestMessage::RequestSync;

    assert_eq!(test_message, expected_message);
}

#[test]
fn test_inbox_overwrite_keeps_last() {
    // pushing message A then message B from the same sender before any
    // flush leaves exactly one entry, equal to B
    let mut test_inbox: AgentInbox<TestMessage> = AgentInbox::default();
    test_inbox.push(0, TestMessage::Acknowledge);
    test_inbox.push(0, TestMessage::Finish);

    assert_eq!(test_inbox.get_messages().len(), 1);
    assert_eq!(test_inbox.read_msg(0), Some(&TestMessage::Finish));
}

#[test]
fn test_outbox_push() {
    let mut test_outbox: AgentOutbox<TestMessage> = AgentOutbox::new(0);

    test_outbox.push(1, TestMessage::RequestSync);

    assert_eq!(test_outbox.get_unsent_messages().len(), 1);
    assert_eq!(test_outbox.get_unsent_messages().get(1), Some(&TestMessage::RequestSync));
}

#[test]
fn test_try_send_message() {
    let population: usize = 10;
    let mut test_environment: TestEnvironment = spawn_test_environment(population);

    for agent in test_environment.agents.iter_mut() {
        let sender_id: usize = agent.agent_identity;
        let agent_outbox = &mut agent.message_module.agent_outbox;

        for round in 0..population {
            if sender_id != round {
                agent_outbox.push(round, TestMessage::RequestSync)
            }
        }
        agent_outbox
            .try_send(&mut test_environment.inbox_addresses)
            .unwrap()
    }

    for agent in test_environment.agents.iter() {
        let expected_total_messages: usize = population - 1;
        let mut actual_total_messages: usize = 0;

        let addresses = test_environment.inbox_addresses.get_addresses();
        let inbox = addresses.get(agent.agent_identity).unwrap().read();

        let received = inbox.get_messages();
        for slot in 0..received.len() {
            let (_, inboxed_message) = received.pair_at(slot);
            assert_eq!(inboxed_message, &TestMessage::RequestSync);
            actual_total_messages += 1;
        }

        assert_eq!(actual_total_messages, expected_total_messages)
    }
}

#[test]
fn test_delivery_aggregation_on_held_inbox() {
    // with agents registered, a recipient whose inbox is held
    // exclusively for longer than the timeout turns every send toward
    // it into an aborted delivery naming exactly that sender and
    // recipient, and the sender's outbox is drained regardless
    let mut env = spawn_test_environment(3);
    let holder = 1;

    env.inbox_addresses
        .get_addresses()
        .get_mut(holder)
        .await_greedy_lock();

    let sender = &mut env.agents[0];
    sender.message_module.agent_outbox.push(holder, TestMessage::RequestSync);
    sender.message_module.agent_outbox.push(2, TestMessage::Acknowledge);

    let failure = sender
        .message_module
        .agent_outbox
        .try_send(&mut env.inbox_addresses)
        .unwrap_err();

    let aborted = failure.aborted_messages();
    assert_eq!(aborted.len(), 1);
    assert_eq!(aborted[0].sender_id(), 0);
    assert_eq!(aborted[0].recipient_id(), holder);
    assert_eq!(aborted[0].message_contents(), &TestMessage::RequestSync);

    // nothing remains enqueued in the sender's outbox
    assert!(sender.message_module.agent_outbox.get_unsent_messages().is_empty());

    // the undisturbed recipient still got its message
    let addresses = env.inbox_addresses.get_addresses();
    let reachable = addresses.get(2).unwrap().read();
    assert_eq!(reachable.get_messages().len(), 1);
    assert_eq!(reachable.read_msg(0), Some(&TestMessage::Acknowledge));

    // the held inbox saw nothing
    addresses.get_mut(holder).release_exclusive();
    let held = addresses.get(holder).unwrap().read();
    assert!(held.get_messages().is_empty());
}

#[test]
fn test_unregistered_recipient_aborts() {
    let mut env = spawn_test_environment(2);

    let sender = &mut env.agents[0];
    sender.message_module.agent_outbox.push(7, TestMessage::Finish);

    let failure = sender
        .message_module
        .agent_outbox
        .try_send(&mut env.inbox_addresses)
        .unwrap_err();

    let aborted = failure.aborted_messages();
    assert_eq!(aborted.len(), 1);
    assert_eq!(aborted[0].recipient_id(), 7);
    assert!(sender.message_module.agent_outbox.get_unsent_messages().is_empty());
}

#[test]
fn test_ten_agents_all_reach_each_other() {
    // ten agents register into one shared directory; each pushes one
    // message to every other agent and flushes; afterwards every inbox
    // holds exactly nine entries, one per other agent, each carrying
    // the sender's own payload
    let population: usize = 10;
    let mut env = spawn_test_environment(population);

    for agent in env.agents.iter_mut() {
        let sender_id = agent.agent_identity;
        for round in 0..population {
            if round != sender_id {
                agent.message_module.agent_outbox.push(
                    round,
                    if sender_id % 2 == 0 {
                        TestMessage::RequestSync
                    } else {
                        TestMessage::Acknowledge
                    },
                );
            }
        }
        agent
            .message_module
            .agent_outbox
            .try_send(&mut env.inbox_addresses)
            .unwrap();
    }

    for recipient in 0..population {
        let addresses = env.inbox_addresses.get_addresses();
        let inbox = addresses.get(recipient).unwrap().read();
        assert_eq!(inbox.get_messages().len(), population - 1);
        for sender in 0..population {
            if sender != recipient {
                let expected = if sender % 2 == 0 {
                    TestMessage::RequestSync
                } else {
                    TestMessage::Acknowledge
                };
                assert_eq!(inbox.read_msg(sender), Some(&expected));
            }
        }
    }
}

#[test]
fn test_bounded_lock_times_out_on_held_cell() {
    let mut cell: GreedyCell<u32> = GreedyCell::new(5);
    assert!(cell.await_greedy_lock_with_timeout(100).is_ok());
    assert!(cell.await_greedy_lock_with_timeout(100).is_err());
    cell.release_exclusive();
    assert!(cell.await_greedy_lock_with_timeout(100).is_ok());
}

use std::cell::RefCell;
use std::collections::HashMap;
use std::rc::Rc;

use x86_vcpu::{FrameHal, HvError, PhysFrame, PAGE_SIZE};

struct HostState {
    pages: HashMap<usize, Vec<u8>>,
    next_paddr: usize,
    freed: Vec<usize>,
    remaining: usize,
}

/// A test double for the host: pages live in ordinary memory, keyed by their
/// pretended physical address; the translation is the identity.
#[derive(Clone)]
struct TestHost(Rc<RefCell<HostState>>);

impl TestHost {
    fn with_capacity(remaining: usize) -> Self {
        TestHost(Rc::new(RefCell::new(HostState {
            pages: HashMap::new(),
            next_paddr: 0x1000,
            freed: Vec::new(),
            remaining,
        })))
    }

    fn page_bytes(&self, paddr: usize) -> Vec<u8> {
        self.0.borrow().pages.get(&paddr).unwrap().clone()
    }

    fn freed(&self) -> Vec<usize> {
        self.0.borrow().freed.clone()
    }
}

impl FrameHal for TestHost {
    fn alloc_frame(&self) -> Option<usize> {
        let mut state = self.0.borrow_mut();
        if state.remaining == 0 {
            return None;
        }
        state.remaining -= 1;
        let paddr = state.next_paddr;
        state.next_paddr += PAGE_SIZE;
        // fresh pages come with a recognizable non-zero pattern, so a later
        // zero-fill is observable
        state.pages.insert(paddr, vec![0xab; PAGE_SIZE]);
        Some(paddr)
    }

    fn dealloc_frame(&self, paddr: usize) {
        let mut state = self.0.borrow_mut();
        state.pages.remove(&paddr);
        state.freed.push(paddr);
    }

    fn phys_to_virt(&self, paddr: usize) -> usize {
        paddr
    }

    fn write_bytes(&self, vaddr: usize, byte: u8, len: usize) {
        let mut state = self.0.borrow_mut();
        let page = state.pages.get_mut(&vaddr).unwrap();
        for slot in page.iter_mut().take(len) {
            *slot = byte;
        }
    }
}

#[test]
fn test_fill_then_read_back_and_free_exactly_once() {
    let host = TestHost::with_capacity(4);
    let mut frame = PhysFrame::allocate(host.clone()).unwrap();
    let paddr = frame.start_paddr();
    assert_ne!(paddr, 0);

    frame.fill(0xff);
    // read the whole page back through the access window
    let window = frame.as_mut_vaddr();
    let bytes = host.page_bytes(window);
    assert_eq!(bytes.len(), PAGE_SIZE);
    for byte in bytes.iter() {
        assert_eq!(*byte, 0xff);
    }

    assert!(host.freed().is_empty());
    frame.release();
    // the free-page capability ran exactly once, with the same address
    assert_eq!(host.freed(), vec![paddr]);
}

#[test]
fn test_placeholder_refuses_its_address() {
    let host = TestHost::with_capacity(1);
    let frame = PhysFrame::uninit(host);
    // a placeholder owns nothing; reading its base address must fail
    assert!(frame.try_start_paddr().is_none());
}

#[test]
fn test_releasing_a_placeholder_frees_nothing() {
    let host = TestHost::with_capacity(1);
    let frame = PhysFrame::uninit(host.clone());
    frame.release();
    assert!(host.freed().is_empty());
}

#[test]
fn test_alloc_zero_clears_the_page() {
    let host = TestHost::with_capacity(1);
    let frame = PhysFrame::alloc_zero(host.clone()).unwrap();
    let bytes = host.page_bytes(frame.start_paddr());
    for byte in bytes.iter() {
        assert_eq!(*byte, 0);
    }
    frame.release();
}

#[test]
fn test_from_alloc_answer_records_the_hosts_address() {
    let host = TestHost::with_capacity(0);
    let frame = PhysFrame::from_alloc_answer(host.clone(), Some(0x7000)).unwrap();
    assert_eq!(frame.start_paddr(), 0x7000);
    frame.release();
    assert_eq!(host.freed(), vec![0x7000]);
}

#[test]
fn test_from_alloc_answer_maps_none_to_no_memory() {
    let host = TestHost::with_capacity(0);
    let answer = PhysFrame::from_alloc_answer(host, None);
    assert!(matches!(answer, Err(HvError::NoMemory)));
}

#[test]
fn test_exhausted_host_reports_no_memory() {
    let host = TestHost::with_capacity(1);
    let first = PhysFrame::allocate(host.clone()).unwrap();
    let second = PhysFrame::allocate(host.clone());
    assert!(matches!(second, Err(HvError::NoMemory)));
    first.release();
}

#[test]
fn test_distinct_frames_get_distinct_pages() {
    let host = TestHost::with_capacity(2);
    let first = PhysFrame::allocate(host.clone()).unwrap();
    let second = PhysFrame::allocate(host.clone()).unwrap();
    assert_ne!(first.start_paddr(), second.start_paddr());
    let (a, b) = (first.start_paddr(), second.start_paddr());
    second.release();
    first.release();
    assert_eq!(host.freed(), vec![b, a]);
}

use gbemu::dma::Dma;

#[test]
fn test_dma_new() {
    let dma = Dma::new();
    assert!(!dma.active);
    assert_eq!(dma.byte, 0);
    assert_eq!(dma.value, 0);
}

#[test]
fn test_dma_start() {
    let mut dma = Dma::new();
    dma.start(0xC0);

    assert!(dma.active);
    assert_eq!(dma.value, 0xC0);
    assert_eq!(dma.byte, 0);
    assert_eq!(dma.delay, 2);
}

#[test]
fn test_dma_addresses() {
    let mut dma = Dma::new();
    dma.start(0xC0);

    assert_eq!(dma.source_address(), 0xC000);
    assert_eq!(dma.dest_address(), 0xFE00);

    dma.byte = 50;
    assert_eq!(dma.source_address(), 0xC032);
    assert_eq!(dma.dest_address(), 0xFE32);
}

#[test]
fn test_dma_tick_delay() {
    let mut dma = Dma::new();
    dma.start(0xC0);

    assert!(dma.tick().is_none());
    assert!(dma.tick().is_none());

    let result = dma.tick();
    assert!(result.is_some());
    let (src, dst) = result.unwrap();
    assert_eq!(src, 0xC000);
    assert_eq!(dst, 0xFE00);
}

#[test]
fn test_dma_complete_transfer() {
    let mut dma = Dma::new();
    dma.start(0xC0);

    dma.tick();
    dma.tick();

    for i in 0..160 {
        let result = dma.tick();
        assert!(result.is_some(), "Byte {} should transfer", i);
    }

    assert!(!dma.active);
    assert!(dma.tick().is_none());
}
